//! Les identifiants des entrées de menu partagées entre le tray et le menu
//! du personnage.

use vstd::prelude::*;

verus! {

/// Tray : afficher ou cacher les personnages.
pub const ID_AFFICHER: &'static str = "afficher";
/// Tray : démarrer avec Windows.
pub const ID_DEMARRAGE: &'static str = "demarrage";
/// Tray : vérifier les mises à jour, ou installer celle qui est disponible.
pub const ID_MAJ: &'static str = "maj";
/// Le gestionnaire : le catalogue et la bibliothèque de personnages.
pub const ID_CATALOGUE: &'static str = "catalogue";
/// Quitter l'application.
pub const ID_QUITTER: &'static str = "quitter";
/// Menu du personnage : cacher tous les personnages.
pub const ID_P_CACHER: &'static str = "cacher";
/// Menu du personnage : cacher celui-ci seulement.
pub const ID_P_CACHER_CE: &'static str = "cacher.ce";

} // verus!
