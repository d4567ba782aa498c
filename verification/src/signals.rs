//! Les décisions que les signaux du système font prendre au comportement :
//! l'utilisateur est-il parti, est-ce le soir, la batterie est-elle faible.
//!
//! Les multiplicateurs d'envie qu'elles entraînent sont des réglages en
//! virgule flottante, appliqués hors de la bibliothèque ; les décisions,
//! elles, sont ici, et une seule fois.

use vstd::prelude::*;
use crate::duree::Duree;
use crate::probe::{Batterie, Signaux};

verus! {

/// `heure` tombe-t-elle dans le créneau `[debut, fin[` ? Un créneau dont le
/// début suit la fin passe par minuit.
pub open spec fn dans_creneau(heure: u8, debut: u8, fin: u8) -> bool {
    if debut <= fin {
        debut <= heure && heure < fin
    } else {
        heure >= debut || heure < fin
    }
}

/// Vrai si `heure` tombe dans le créneau `[debut, fin[`. Le créneau du soir
/// par défaut passe par minuit (22 h → 6 h) : écrit naïvement, il serait
/// toujours faux.
pub fn dans_le_creneau(heure: u8, debut: u8, fin: u8) -> (r: bool)
    ensures
        r == dans_creneau(heure, debut, fin),
{
    if debut <= fin {
        heure >= debut && heure < fin
    } else {
        heure >= debut || heure < fin
    }
}

/// L'utilisateur est parti : il n'a touché à rien depuis au moins le seuil.
pub open spec fn est_inactif(s: Signaux, seuil: Duree) -> bool {
    s.inactivite@ >= seuil@
}

/// La batterie est faible : il y en a une, elle n'est pas sur secteur, et
/// son niveau est sous le seuil. `None` n'est pas une batterie vide, et un
/// portable branché se recharge.
pub open spec fn est_batterie_faible(b: Batterie, seuil: u8) -> bool {
    match b.pourcent {
        Some(p) => !b.sur_secteur && p < seuil,
        None => false,
    }
}

/// Les signaux qui mordent à cet instant.
#[derive(Debug, Clone, Copy, PartialEq, Eq, Structural)]
pub struct Mordants {
    /// L'utilisateur est parti.
    pub inactif: bool,
    /// L'heure tombe dans le créneau du soir.
    pub soir: bool,
    /// La batterie est faible, et pas sur secteur.
    pub batterie_faible: bool,
}

/// Ce qui mord dans ces signaux, selon les seuils des réglages.
pub fn ce_qui_mord(s: &Signaux, seuil_inactivite: Duree, soir_debut: u8, soir_fin: u8, seuil_batterie: u8) -> (m: Mordants)
    ensures
        m.inactif == est_inactif(*s, seuil_inactivite),
        m.soir == dans_creneau(s.heure, soir_debut, soir_fin),
        m.batterie_faible == est_batterie_faible(s.batterie, seuil_batterie),
{
    let batterie_faible = match s.batterie.pourcent {
        Some(p) => !s.batterie.sur_secteur && p < seuil_batterie,
        None => false,
    };
    Mordants {
        inactif: s.inactivite.nanos >= seuil_inactivite.nanos,
        soir: dans_le_creneau(s.heure, soir_debut, soir_fin),
        batterie_faible,
    }
}

/// L'utilisateur vient-il de toucher à quelque chose ? La définition de
/// « actif », au même seuil que l'inactivité de `ce_qui_mord`.
pub fn utilisateur_actif(s: &Signaux, seuil_inactivite: Duree) -> (r: bool)
    ensures
        r == !est_inactif(*s, seuil_inactivite),
{
    s.inactivite.nanos < seuil_inactivite.nanos
}

/// Loi : au même seuil, l'utilisateur est actif ou parti, jamais les deux
/// à la fois ni aucun des deux — « actif » et l'inactivité des signaux
/// partagent leur seuil, au nanoseconde près.
pub proof fn loi_actif_et_inactif_partagent_le_seuil(s: Signaux, seuil: Duree)
    ensures
        !est_inactif(s, seuil) <==> s.inactivite@ < seuil@,
        est_inactif(s, seuil) <==> s.inactivite@ >= seuil@,
{
}

} // verus!
