//! La santé de la file de messages du thread principal : la dernière
//! latence mesurée d'un jeton, et le drapeau du jeton en vol.
//!
//! Ce module ne décide rien : il publie une durée. Un seul jeton peut être
//! en vol à la fois — sous saturation, en poster d'autres aggraverait ce
//! qu'on mesure.

use vstd::prelude::*;
use crate::duree::Duree;

verus! {

/// La dernière latence, en microsecondes, et le jeton en vol.
pub struct Moniteur {
    derniere_latence_us: u64,
    en_vol: bool,
}

/// L'état abstrait d'un moniteur.
pub struct EtatMoniteur {
    pub latence_us: u64,
    pub en_vol: bool,
}

impl View for Moniteur {
    type V = EtatMoniteur;

    closed spec fn view(&self) -> EtatMoniteur {
        EtatMoniteur { latence_us: self.derniere_latence_us, en_vol: self.en_vol }
    }
}

/// Une durée en microsecondes, saturée à `u64::MAX`.
pub open spec fn micros_satures(d: nat) -> u64 {
    if d / 1000 <= u64::MAX {
        (d / 1000) as u64
    } else {
        u64::MAX
    }
}

/// L'état après l'enregistrement d'une mesure de `d` nanosecondes.
pub open spec fn apres_enregistrement(e: EtatMoniteur, d: nat) -> EtatMoniteur {
    EtatMoniteur { latence_us: micros_satures(d), en_vol: false }
}

/// Ce que rend une demande de décollage, et l'état qui la suit.
pub open spec fn apres_vol(e: EtatMoniteur) -> (bool, EtatMoniteur) {
    (!e.en_vol, EtatMoniteur { latence_us: e.latence_us, en_vol: true })
}

impl Moniteur {
    /// Rien de mesuré, aucun jeton en vol.
    pub fn nouveau() -> (m: Moniteur)
        ensures
            m@ == (EtatMoniteur { latence_us: 0, en_vol: false }),
    {
        Moniteur { derniere_latence_us: 0, en_vol: false }
    }

    /// La dernière latence connue. Zéro tant que rien n'a été mesuré.
    pub fn latence(&self) -> (d: Duree)
        ensures
            d@ == self@.latence_us * 1000,
            d.bien_formee(),
    {
        Duree::from_micros(self.derniere_latence_us)
    }

    /// Le jeton est revenu : on publie sa durée, saturée plutôt que
    /// tronquée, et on libère la place.
    pub fn enregistrer(&mut self, d: Duree)
        ensures
            final(self)@ == apres_enregistrement(old(self)@, d@),
    {
        let us = d.as_micros();
        self.derniere_latence_us = if us <= u64::MAX as u128 {
            us as u64
        } else {
            u64::MAX
        };
        self.en_vol = false;
    }

    /// Réserve la place du jeton. Rend `false` si un jeton attend déjà.
    pub fn prendre_le_vol(&mut self) -> (accorde: bool)
        ensures
            (accorde, final(self)@) == apres_vol(old(self)@),
    {
        let accorde = !self.en_vol;
        self.en_vol = true;
        accorde
    }
}

/// Loi : un seul jeton en vol à la fois. Quel que soit l'état, deux
/// décollages de suite : le second est refusé. Et après un enregistrement,
/// le décollage suivant est accordé.
pub proof fn loi_un_seul_jeton_en_vol(e: EtatMoniteur, d: nat)
    ensures
        !apres_vol(apres_vol(e).1).0,
        apres_vol(apres_enregistrement(e, d)).0,
{
}

/// Loi : la latence lue est celle de la dernière mesure enregistrée, à la
/// microseconde près, et un décollage n'y touche pas.
pub proof fn loi_la_derniere_mesure_est_celle_lue(e: EtatMoniteur, d: nat)
    ensures
        apres_enregistrement(e, d).latence_us == micros_satures(d),
        apres_vol(e).1.latence_us == e.latence_us,
{
}

} // verus!
