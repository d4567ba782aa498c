//! Le tray : son menu, et reconnaître les fenêtres de personnages à leur
//! label.
//!
//! Ce qu'une entrée fait est décidé ailleurs, par le gestionnaire d'actions
//! partagé avec le menu du personnage ; ici on décrit le menu.

use vstd::prelude::*;
use crate::actions::{ID_AFFICHER, ID_CATALOGUE, ID_DEMARRAGE, ID_MAJ, ID_QUITTER};
use crate::maj::{EtatMaj, libelle, libelle_de};
use crate::texte::{commence_par, octets};

verus! {

/// Ce label est-il celui d'une fenêtre de personnage ? Le préfixe `pet-`
/// est la seule convention de nommage des fenêtres du programme.
pub fn est_un_personnage(label: &str) -> (r: bool)
    ensures
        r == (octets("pet-"@).len() <= octets(label@).len() && octets(label@).subrange(
            0,
            octets("pet-"@).len() as int,
        ) == octets("pet-"@)),
{
    commence_par(label, "pet-")
}

/// Une entrée du menu du tray.
#[derive(Debug, Clone, PartialEq, Eq)]
pub enum EntreeTray {
    /// Une case à cocher.
    Case { id: &'static str, libelle: &'static str, cochee: bool },
    /// Une entrée simple.
    Simple { id: &'static str, libelle: &'static str },
    /// Une entrée dont le libellé change avec l'état du programme.
    Variable { id: &'static str, libelle: String },
    Separateur,
}

pub enum EntreeTrayVue {
    Case { id: Seq<char>, libelle: Seq<char>, cochee: bool },
    Simple { id: Seq<char>, libelle: Seq<char> },
    Separateur,
}

impl View for EntreeTray {
    type V = EntreeTrayVue;

    open spec fn view(&self) -> EntreeTrayVue {
        match self {
            EntreeTray::Case { id, libelle, cochee } => EntreeTrayVue::Case { id: id@, libelle: libelle@, cochee: *cochee },
            EntreeTray::Simple { id, libelle } => EntreeTrayVue::Simple { id: id@, libelle: libelle@ },
            EntreeTray::Variable { id, libelle } => EntreeTrayVue::Simple { id: id@, libelle: libelle@ },
            EntreeTray::Separateur => EntreeTrayVue::Separateur,
        }
    }
}

/// Le menu du tray : « Afficher les personnages », coché au démarrage
/// puisqu'ils sont visibles ; « Démarrer avec Windows », coché d'après ce
/// que dit vraiment le registre ; le gestionnaire ; l'entrée de la mise à
/// jour, dont le libellé dit l'état ; et « Quitter » derrière un séparateur.
pub open spec fn menu_du_tray(demarrage_actif: bool, maj: crate::maj::EtatMajVue) -> Seq<EntreeTrayVue> {
    seq![
        EntreeTrayVue::Case { id: ID_AFFICHER@, libelle: "Afficher les personnages"@, cochee: true },
        EntreeTrayVue::Case { id: ID_DEMARRAGE@, libelle: "Démarrer avec Windows"@, cochee: demarrage_actif },
        EntreeTrayVue::Simple { id: ID_CATALOGUE@, libelle: "Ouvrir le gestionnaire…"@ },
        EntreeTrayVue::Simple { id: ID_MAJ@, libelle: libelle_de(maj) },
        EntreeTrayVue::Separateur,
        EntreeTrayVue::Simple { id: ID_QUITTER@, libelle: "Quitter"@ },
    ]
}

/// Les entrées du menu du tray, dans l'ordre.
pub fn entrees_du_tray(demarrage_actif: bool, maj: &EtatMaj) -> (m: Vec<EntreeTray>)
    ensures
        m@.map_values(|e: EntreeTray| e@) == menu_du_tray(demarrage_actif, maj@),
{
    let m = vec![
        EntreeTray::Case { id: ID_AFFICHER, libelle: "Afficher les personnages", cochee: true },
        EntreeTray::Case { id: ID_DEMARRAGE, libelle: "Démarrer avec Windows", cochee: demarrage_actif },
        EntreeTray::Simple { id: ID_CATALOGUE, libelle: "Ouvrir le gestionnaire…" },
        EntreeTray::Variable { id: ID_MAJ, libelle: libelle(maj) },
        EntreeTray::Separateur,
        EntreeTray::Simple { id: ID_QUITTER, libelle: "Quitter" },
    ];
    assert(m@.map_values(|e: EntreeTray| e@) =~= menu_du_tray(demarrage_actif, maj@));
    m
}

} // verus!
