//! Le départ d'un personnage qu'on retire de la scène : il se ramasse, il
//! saute, puis il tombe à travers le sol.
//!
//! Ici, le déroulé des phases dans le temps et le garde-fou de durée. La
//! chute elle-même — gravité, position, sortie par le bas du bureau — est
//! de la physique en virgule flottante, menée hors de la bibliothèque.

use vstd::prelude::*;
use crate::duree::Duree;

verus! {

/// `sit` : il se ramasse, 120 ms.
pub const DUREE_SE_RAMASSE_NS: u128 = 120_000_000;
/// `jump` : il se détend, 150 ms.
pub const DUREE_SAUTE_NS: u128 = 150_000_000;
/// Au-delà de 3 s, l'acteur est retiré quoi qu'il arrive : un acteur qui ne
/// partirait jamais ferait fuir une fenêtre.
pub const DUREE_MAX_DEPART_NS: u128 = 3_000_000_000;

/// Les trois temps d'un départ.
#[derive(Debug, Clone, Copy, PartialEq, Eq, Structural)]
pub enum PhaseDepart {
    /// `sit` : il se ramasse.
    SeRamasse,
    /// `jump` : il se détend.
    Saute,
    /// `fall` : il tombe, et il traverse le sol.
    Tombe,
}

/// Le rang d'une phase dans le départ.
pub open spec fn rang(p: PhaseDepart) -> nat {
    match p {
        PhaseDepart::SeRamasse => 0,
        PhaseDepart::Saute => 1,
        PhaseDepart::Tombe => 2,
    }
}

/// La pose que joue une phase.
pub open spec fn pose_de(p: PhaseDepart) -> Seq<char> {
    match p {
        PhaseDepart::SeRamasse => "sit"@,
        PhaseDepart::Saute => "jump"@,
        PhaseDepart::Tombe => "fall"@,
    }
}

/// Un acteur en train de quitter la scène.
#[derive(Debug, Clone, Copy, PartialEq, Eq, Structural)]
pub struct Depart {
    pub phase: PhaseDepart,
    /// L'instant où a commencé la phase courante.
    pub depuis: Duree,
    /// L'instant où a commencé le départ entier : le garde-fou des 3 s porte
    /// sur lui, pas sur la dernière phase.
    pub debut: Duree,
}

/// Ce qu'une image du départ demande.
#[derive(Debug, Clone, Copy, PartialEq, Eq)]
pub enum EtapeDepart {
    /// Le départ a assez duré : l'acteur est retiré.
    Retirer,
    /// Jouer cette pose ; `impulsion` dit qu'il vient de sauter et reçoit
    /// sa petite vitesse vers le haut.
    Jouer { pose: &'static str, impulsion: bool },
}

impl Depart {
    /// Un départ qui commence maintenant : il se ramasse.
    pub fn commence(maintenant: Duree) -> (d: Depart)
        ensures
            d.phase == PhaseDepart::SeRamasse,
            d.depuis == maintenant,
            d.debut == maintenant,
    {
        Depart { phase: PhaseDepart::SeRamasse, depuis: maintenant, debut: maintenant }
    }

    /// Fait avancer le départ d'une image. Le garde-fou de durée passe en
    /// premier ; sinon la pose de la phase courante est jouée, et la phase
    /// passe à la suivante quand sa durée est écoulée. Les phases ne
    /// reculent jamais.
    pub fn avancer(&mut self, maintenant: Duree) -> (e: EtapeDepart)
        ensures
            old(self).debut == final(self).debut,
            rang(old(self).phase) <= rang(final(self).phase),
            maintenant@ > old(self).debut@ + DUREE_MAX_DEPART_NS ==> e == EtapeDepart::Retirer
                && *final(self) == *old(self),
            maintenant@ <= old(self).debut@ + DUREE_MAX_DEPART_NS ==> (e matches EtapeDepart::Jouer {
                pose,
                impulsion,
            } && pose@ == pose_de(old(self).phase) && match old(self).phase {
                PhaseDepart::SeRamasse => if maintenant@ >= old(self).depuis@ + DUREE_SE_RAMASSE_NS {
                    final(self).phase == PhaseDepart::Saute && final(self).depuis == maintenant && !impulsion
                } else {
                    *final(self) == *old(self) && !impulsion
                },
                PhaseDepart::Saute => if maintenant@ >= old(self).depuis@ + DUREE_SAUTE_NS {
                    final(self).phase == PhaseDepart::Tombe && final(self).depuis == maintenant && impulsion
                } else {
                    *final(self) == *old(self) && !impulsion
                },
                PhaseDepart::Tombe => *final(self) == *old(self) && !impulsion,
            }),
    {
        if maintenant.saturating_sub(self.debut).nanos > DUREE_MAX_DEPART_NS {
            return EtapeDepart::Retirer;
        }
        let ecoule = maintenant.saturating_sub(self.depuis).nanos;
        match self.phase {
            PhaseDepart::SeRamasse => {
                if ecoule >= DUREE_SE_RAMASSE_NS {
                    self.phase = PhaseDepart::Saute;
                    self.depuis = maintenant;
                }
                EtapeDepart::Jouer { pose: "sit", impulsion: false }
            },
            PhaseDepart::Saute => {
                let fini = ecoule >= DUREE_SAUTE_NS;
                if fini {
                    self.phase = PhaseDepart::Tombe;
                    self.depuis = maintenant;
                }
                EtapeDepart::Jouer { pose: "jump", impulsion: fini }
            },
            PhaseDepart::Tombe => EtapeDepart::Jouer { pose: "fall", impulsion: false },
        }
    }
}

} // verus!
