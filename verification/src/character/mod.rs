//! Le personnage : le sens dans lequel il regarde, son manifeste, et la
//! pose qu'il joue.
//!
//! Sa place dans le monde et sa physique sont en virgule flottante, et
//! vivent hors de la bibliothèque ; ce qu'il joue, et depuis quand, est ici.

use vstd::prelude::*;
use vstd::string::StringExecFns;
use crate::duree::Duree;
use crate::texte::egal;
use manifest::{image_a, PoseNommee, POSE_STAND};

pub mod manifest;

verus! {

/// Le sens dans lequel le personnage regarde. L'orientation est obtenue par
/// miroir horizontal : ce type dit s'il faut retourner le sprite.
#[derive(Debug, Clone, Copy, PartialEq, Eq, Structural)]
pub enum Facing {
    Left,
    Right,
}

impl Facing {
    /// `true` s'il faut retourner le sprite horizontalement : les sprites
    /// Shimeji sont dessinés tournés vers la GAUCHE, regarder à droite
    /// demande donc un miroir.
    pub fn flipped(&self) -> (r: bool)
        ensures
            r == (*self == Facing::Right),
    {
        match self {
            Facing::Right => true,
            Facing::Left => false,
        }
    }

    /// L'autre sens.
    pub fn inverse(&self) -> (r: Facing)
        ensures
            r == inverse_de(*self),
    {
        match self {
            Facing::Left => Facing::Right,
            Facing::Right => Facing::Left,
        }
    }
}

/// Loi : faire demi-tour deux fois ramène au sens de départ, et un
/// demi-tour change toujours le miroir.
pub proof fn loi_demi_tour(f: Facing)
    ensures
        inverse_de(inverse_de(f)) == f,
        (inverse_de(f) == Facing::Right) != (f == Facing::Right),
{
}

/// L'autre sens, en spécification.
pub open spec fn inverse_de(f: Facing) -> Facing {
    match f {
        Facing::Left => Facing::Right,
        Facing::Right => Facing::Left,
    }
}

// ── La pose jouée ───────────────────────────────────────────────────────

/// Le rang de la première pose de `poses`, à partir du rang `i`, qui porte
/// le nom `nom`.
pub open spec fn rang_de_pose(poses: Seq<PoseNommee>, nom: Seq<char>, i: nat) -> Option<int>
    decreases poses.len() - i,
{
    if i >= poses.len() {
        None
    } else if poses[i as int].nom@ == nom {
        Some(i as int)
    } else {
        rang_de_pose(poses, nom, i + 1)
    }
}

/// Le rang de la pose `nom` dans la table.
pub open spec fn rang_pose(poses: Seq<PoseNommee>, nom: Seq<char>) -> Option<int> {
    rang_de_pose(poses, nom, 0)
}

fn chercher_pose(poses: &[PoseNommee], nom: &str) -> (r: Option<usize>)
    ensures
        match r {
            Some(k) => rang_pose(poses@, nom@) == Some(k as int) && k < poses@.len(),
            None => rang_pose(poses@, nom@) is None,
        },
{
    let mut i: usize = 0;
    while i < poses.len()
        invariant
            i <= poses@.len(),
            rang_pose(poses@, nom@) == rang_de_pose(poses@, nom@, i as nat),
        decreases poses@.len() - i,
    {
        if egal(poses[i].nom.as_str(), nom) {
            return Some(i);
        }
        i = i + 1;
    }
    None
}

/// Le temps écoulé depuis `depuis`, nul si `maintenant` le précède.
pub open spec fn ecoule_depuis(maintenant: Duree, depuis: Duree) -> nat {
    if maintenant@ >= depuis@ {
        (maintenant@ - depuis@) as nat
    } else {
        0
    }
}

/// La pose que joue le personnage, et depuis quand.
#[derive(Debug, Clone, PartialEq, Eq)]
pub struct Animation {
    pub pose: String,
    /// L'instant où la pose courante a commencé.
    pub pose_depuis: Duree,
}

impl Animation {
    /// Un personnage qui arrive : debout, depuis l'instant zéro.
    pub fn nouvelle() -> (a: Animation)
        ensures
            a.pose@ == POSE_STAND@,
            a.pose_depuis@ == 0,
    {
        Animation { pose: String::from_str(POSE_STAND), pose_depuis: Duree::zero() }
    }

    /// Change de pose — et ne remet le chronomètre à zéro que si la pose
    /// change réellement : appelée à chaque image avec le même nom, elle ne
    /// redémarre pas l'animation.
    ///
    /// Une pose absente de la table est ignorée : le personnage garde celle
    /// qu'il avait, et tombe dans sa pose courante s'il n'a pas de `fall`.
    pub fn set_pose(&mut self, poses: &[PoseNommee], nom: &str, maintenant: Duree)
        ensures
            rang_pose(poses@, nom@) is None || old(self).pose@ == nom@ ==> *final(self) == *old(self),
            rang_pose(poses@, nom@) is Some && old(self).pose@ != nom@ ==> final(self).pose@ == nom@
                && final(self).pose_depuis == maintenant,
    {
        if chercher_pose(poses, nom).is_none() {
            return;
        }
        if !egal(self.pose.as_str(), nom) {
            self.pose = String::from_str(nom);
            self.pose_depuis = maintenant;
        }
    }

    /// L'image à afficher maintenant ; l'image 1 si la pose courante a
    /// disparu de la table (un manifeste rechargé à chaud et amputé) plutôt
    /// que de paniquer.
    pub fn frame_courante(&self, poses: &[PoseNommee], maintenant: Duree) -> (f: u32)
        ensures
            f == match rang_pose(poses@, self.pose@) {
                Some(k) => {
                    let p = poses@[k].pose;
                    image_a(
                        p.frames@,
                        p.frame_ms,
                        p.looping,
                        p.hold,
                        ecoule_depuis(maintenant, self.pose_depuis) / 1_000_000,
                    )
                },
                None => 1,
            },
    {
        match chercher_pose(poses, self.pose.as_str()) {
            Some(k) => poses[k].pose.frame_a(maintenant.saturating_sub(self.pose_depuis)),
            None => 1,
        }
    }

    /// La séquence de la pose courante est-elle arrivée à son terme ?
    /// Jamais pour une pose en boucle : une boucle ne se termine pas.
    pub fn pose_terminee(&self, poses: &[PoseNommee], maintenant: Duree) -> (r: bool)
        requires
            rang_pose(poses@, self.pose@) matches Some(k) ==> poses@[k].pose.frame_ms
                * poses@[k].pose.frames@.len() <= u64::MAX,
        ensures
            r == match rang_pose(poses@, self.pose@) {
                Some(k) => {
                    let p = poses@[k].pose;
                    !p.looping && ecoule_depuis(maintenant, self.pose_depuis) >= p.frame_ms
                        * p.frames@.len() * 1_000_000
                },
                None => false,
            },
    {
        match chercher_pose(poses, self.pose.as_str()) {
            Some(k) => {
                if poses[k].pose.looping {
                    false
                } else {
                    let ecoule = maintenant.saturating_sub(self.pose_depuis);
                    ecoule.nanos >= poses[k].pose.duree_totale().nanos
                }
            },
            None => false,
        }
    }
}

} // verus!
