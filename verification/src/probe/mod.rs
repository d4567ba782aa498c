//! Ce que le programme sait du système, sans dire comment il l'apprend :
//! l'instantané des signaux lents, et ce que la sonde Windows tire des
//! valeurs brutes que le système lui rend.

pub mod win32;

use vstd::prelude::*;
use crate::duree::Duree;

verus! {

/// L'état de la batterie.
#[derive(Debug, Clone, Copy, PartialEq, Eq, Structural)]
pub struct Batterie {
    /// `None` sur une machine sans batterie, ou quand le système dit ne pas
    /// savoir. Ce n'est pas `Some(100)`.
    pub pourcent: Option<u8>,
    pub sur_secteur: bool,
}

/// L'état du système à un instant, lu d'un coup : lues à des instants
/// différents, ces valeurs pourraient se contredire.
#[derive(Debug, Clone, PartialEq, Eq)]
pub struct Signaux {
    /// Depuis combien de temps l'utilisateur n'a touché à rien — un
    /// compteur, jamais une touche.
    pub inactivite: Duree,
    /// Le nom de fichier de l'exécutable au premier plan, sans son chemin.
    pub appli_active: Option<String>,
    /// L'heure locale, de 0 à 23.
    pub heure: u8,
    pub batterie: Batterie,
    /// Vrai pendant que la session est verrouillée.
    pub session_verrouillee: bool,
}

} // verus!
