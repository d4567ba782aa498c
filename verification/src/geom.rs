//! La géométrie du bureau : ici, le côté utilisable d'un rectangle. Les
//! points, vecteurs et rectangles, en flottants, vivent hors de la
//! bibliothèque vérifiée.

use vstd::prelude::*;

verus! {

/// Un côté utilisable d'un rectangle.
#[derive(Debug, Clone, Copy, PartialEq, Eq, Structural)]
pub enum Face {
    /// Le dessus — on marche dessus.
    Top,
    /// Le bord gauche — on s'y agrippe.
    Left,
    /// Le bord droit — idem.
    Right,
    /// Le dessous — on s'y suspend.
    Bottom,
}

} // verus!
