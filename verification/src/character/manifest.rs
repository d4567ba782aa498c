//! Le manifeste d'un personnage : les noms de poses connus du code, et
//! l'animation d'une pose — quelle image afficher après un temps donné.
//!
//! La lecture de `mascot.json`, l'ancre et la hitbox (des flottants) vivent
//! hors de la bibliothèque vérifiée ; `Pose` ne garde ici que ce que
//! l'animation lit.

use vstd::prelude::*;
use crate::duree::Duree;
use crate::texte::egal;

verus! {

pub const POSE_STAND: &'static str = "stand";
pub const POSE_WALK: &'static str = "walk";
pub const POSE_RUN: &'static str = "run";
pub const POSE_SIT: &'static str = "sit";
pub const POSE_FALL: &'static str = "fall";
pub const POSE_LAND: &'static str = "land";
pub const POSE_WAKE: &'static str = "wake";
pub const POSE_SLEEP: &'static str = "sleep";
pub const POSE_SPIN_HEAD: &'static str = "spinHead";
pub const POSE_SIT_DANGLE: &'static str = "sitDangle";
/// Porté, au repos : il pend droit.
pub const POSE_DRAGGED: &'static str = "dragged";
pub const POSE_GRAB_WALL: &'static str = "grabWall";
pub const POSE_CLIMB_WALL: &'static str = "climbWall";
pub const POSE_GRAB_CEILING: &'static str = "grabCeiling";
pub const POSE_CLIMB_CEILING: &'static str = "climbCeiling";

/// Les poses de balancement, tête à gauche, du plus léger au plus ample.
pub const POSES_DRAGGED_LEFT: [&'static str; 3] = ["draggedLeft1", "draggedLeft2", "draggedLeft3"];

/// Les poses de balancement, tête à droite.
pub const POSES_DRAGGED_RIGHT: [&'static str; 3] = [
    "draggedRight1",
    "draggedRight2",
    "draggedRight3",
];

/// Les sept poses du personnage porté : la pose au repos et les six de
/// balancement.
pub open spec fn poses_portees() -> Seq<Seq<char>> {
    seq![
        "dragged"@,
        "draggedLeft1"@,
        "draggedLeft2"@,
        "draggedLeft3"@,
        "draggedRight1"@,
        "draggedRight2"@,
        "draggedRight3"@,
    ]
}

/// Cette pose est-elle l'une de celles du personnage porté ?
pub fn est_pose_portee(nom: &str) -> (r: bool)
    ensures
        r == poses_portees().contains(nom@),
{
    let r = egal(nom, "dragged") || egal(nom, "draggedLeft1") || egal(nom, "draggedLeft2")
        || egal(nom, "draggedLeft3") || egal(nom, "draggedRight1") || egal(nom, "draggedRight2")
        || egal(nom, "draggedRight3");
    proof {
        let p = poses_portees();
        if r {
            if nom@ == "dragged"@ {
                assert(p[0] == nom@);
            } else if nom@ == "draggedLeft1"@ {
                assert(p[1] == nom@);
            } else if nom@ == "draggedLeft2"@ {
                assert(p[2] == nom@);
            } else if nom@ == "draggedLeft3"@ {
                assert(p[3] == nom@);
            } else if nom@ == "draggedRight1"@ {
                assert(p[4] == nom@);
            } else if nom@ == "draggedRight2"@ {
                assert(p[5] == nom@);
            } else {
                assert(p[6] == nom@);
            }
        }
    }
    r
}

/// La durée d'affichage par défaut d'une image, en millisecondes.
pub fn frame_ms_par_defaut() -> (r: u32)
    ensures
        r == 150,
{
    150
}

/// La taille par défaut d'une image, largeur et hauteur.
pub fn frame_size_par_defaut() -> (r: [u32; 2])
    ensures
        r@ == seq![128u32, 128u32],
{
    let r = [128u32, 128u32];
    assert(r@ =~= seq![128u32, 128u32]);
    r
}

/// Une pose : une suite d'images et un rythme.
pub struct Pose {
    /// Numéros de `shime<n>.png`, dans l'ordre de lecture.
    pub frames: Vec<u32>,
    /// Durée d'affichage d'une image, en millisecondes.
    pub frame_ms: u32,
    /// L'animation boucle-t-elle ?
    pub looping: bool,
    /// Image conservée à l'arrêt quand `looping` est faux ; absente, c'est
    /// la dernière de la séquence.
    pub hold: Option<u32>,
}

/// Combien d'images entières se sont écoulées en `ecoule_ms` millisecondes,
/// à `frame_ms` millisecondes l'image : aucune si le rythme est nul. Le
/// compte est tenu dans un `usize`, qui reboucle au-delà de sa borne.
pub open spec fn images_ecoulees(frame_ms: u32, ecoule_ms: nat) -> nat {
    if frame_ms == 0 {
        0
    } else {
        (ecoule_ms / (frame_ms as nat)) % (usize::MAX as nat + 1)
    }
}

/// L'image d'une pose après `ecoule_ms` millisecondes : une fonction pure du
/// temps écoulé. Une pose sans image montre l'image 1. Sinon, tant que la
/// séquence n'est pas finie, c'est l'image du rang écoulé ; au-delà, une pose
/// qui boucle reprend au début, et une pose qui ne boucle pas tient son
/// image d'arrêt, ou à défaut la dernière.
pub open spec fn image_a(frames: Seq<u32>, frame_ms: u32, looping: bool, hold: Option<u32>, ecoule_ms: nat) -> u32 {
    let n = images_ecoulees(frame_ms, ecoule_ms);
    if frames.len() == 0 {
        1
    } else if n < frames.len() {
        frames[n as int]
    } else if looping {
        frames[(n % frames.len()) as int]
    } else {
        match hold {
            Some(h) => h,
            None => frames.last(),
        }
    }
}

impl Pose {
    /// Durée d'un cycle complet de l'animation.
    pub fn duree_totale(&self) -> (d: Duree)
        requires
            self.frame_ms * self.frames@.len() <= u64::MAX,
        ensures
            d@ == self.frame_ms * self.frames@.len() * 1_000_000,
    {
        Duree::from_millis(self.frame_ms as u64 * self.frames.len() as u64)
    }

    /// Quelle image afficher après `ecoule` passé dans cette pose. Une pose
    /// sans image rend l'image 1 ; un rythme nul tient la première image.
    pub fn frame_a(&self, ecoule: Duree) -> (f: u32)
        ensures
            f == image_a(self.frames@, self.frame_ms, self.looping, self.hold, ecoule@ / 1_000_000),
    {
        if self.frames.len() == 0 {
            return 1;
        }
        let index: usize = if self.frame_ms == 0 {
            0
        } else {
            // Le compte reboucle dans un `usize`, comme une conversion `as`.
            let q = ecoule.as_millis() / self.frame_ms as u128;
            let borne = usize::MAX as u128;
            let r = if q > borne {
                q % (borne + 1)
            } else {
                q
            };
            r as usize
        };
        if index < self.frames.len() {
            return self.frames[index];
        }
        if self.looping {
            self.frames[index % self.frames.len()]
        } else {
            match self.hold {
                Some(h) => h,
                None => self.frames[self.frames.len() - 1],
            }
        }
    }
}

// ── La couverture partielle ─────────────────────────────────────────────

/// Ce qui peut mal se passer au chargement d'un manifeste.
#[derive(Debug, Clone, PartialEq, Eq)]
pub enum ManifestError {
    FichierIllisible { chemin: String, cause: String },
    JsonInvalide(String),
    /// Aucune pose ne possède ses images : ce n'est plus de la couverture
    /// partielle, c'est un dossier vide.
    AucunePoseJouable,
}

/// Une pose du manifeste et son nom. La table des poses est une suite de
/// ces entrées, rangée par nom.
pub struct PoseNommee {
    pub nom: String,
    pub pose: Pose,
}

/// Une pose est jouable si elle a au moins une image, et que toutes ses
/// images sont présentes.
#[verifier::opaque]
pub open spec fn jouable(frames: Seq<u32>, presentes: Seq<u32>) -> bool {
    frames.len() > 0 && forall|i: int| 0 <= i < frames.len() ==> presentes.contains(#[trigger] frames[i])
}

/// Les poses de `p` qui sont jouables, dans l'ordre.
pub open spec fn poses_gardees(p: Seq<PoseNommee>, presentes: Seq<u32>) -> Seq<PoseNommee>
    decreases p.len(),
{
    if p.len() == 0 {
        Seq::empty()
    } else {
        let avant = poses_gardees(p.drop_last(), presentes);
        if jouable(p.last().pose.frames@, presentes) {
            avant.push(p.last())
        } else {
            avant
        }
    }
}

/// Les noms des poses de `p` qui ne sont pas jouables, dans l'ordre.
pub open spec fn noms_retires(p: Seq<PoseNommee>, presentes: Seq<u32>) -> Seq<Seq<char>>
    decreases p.len(),
{
    if p.len() == 0 {
        Seq::empty()
    } else {
        let avant = noms_retires(p.drop_last(), presentes);
        if jouable(p.last().pose.frames@, presentes) {
            avant
        } else {
            avant.push(p.last().nom@)
        }
    }
}

fn contient_image(presentes: &[u32], n: u32) -> (r: bool)
    ensures
        r == presentes@.contains(n),
{
    let mut i: usize = 0;
    while i < presentes.len()
        invariant
            i <= presentes@.len(),
            forall|k: int| 0 <= k < i ==> presentes@[k] != n,
        decreases presentes@.len() - i,
    {
        if presentes[i] == n {
            return true;
        }
        i = i + 1;
    }
    false
}

fn est_jouable(frames: &Vec<u32>, presentes: &[u32]) -> (r: bool)
    ensures
        r == jouable(frames@, presentes@),
{
    reveal(jouable);
    if frames.len() == 0 {
        return false;
    }
    let mut i: usize = 0;
    while i < frames.len()
        invariant
            i <= frames@.len(),
            forall|k: int| 0 <= k < i ==> presentes@.contains(#[trigger] frames@[k]),
        decreases frames@.len() - i,
    {
        if !contient_image(presentes, frames[i]) {
            proof {
                reveal(jouable);
            }
            return false;
        }
        i = i + 1;
    }
    true
}

/// Retire les poses dont une image manque, ou qui n'en ont aucune : le
/// chargement n'échoue pas, il réduit — un personnage sans images
/// d'escalade ne grimpera jamais. `presentes` sont les numéros des images
/// trouvées dans le dossier du personnage.
///
/// Rend les poses gardées, dans leur ordre, et les noms des poses retirées,
/// pour les annoncer ; ou `AucunePoseJouable` s'il n'en reste aucune.
pub fn retenir_les_poses_jouables(poses: Vec<PoseNommee>, presentes: &[u32]) -> (r: Result<
    (Vec<PoseNommee>, Vec<String>),
    ManifestError,
>)
    ensures
        match r {
            Ok((gardees, retirees)) => {
                &&& gardees@ == poses_gardees(poses@, presentes@)
                &&& gardees@.len() > 0
                &&& retirees@.map_values(|n: String| n@) == noms_retires(poses@, presentes@)
            },
            Err(e) => e == ManifestError::AucunePoseJouable && poses_gardees(poses@, presentes@).len()
                == 0,
        },
{
    let ghost entree = poses@;
    let mut reste = poses;
    let mut gardees: Vec<PoseNommee> = Vec::new();
    let mut retirees: Vec<String> = Vec::new();
    let n = reste.len();
    let mut j: usize = 0;
    while reste.len() > 0
        invariant
            j <= entree.len(),
            n == entree.len(),
            j + reste@.len() == n,
            reste@ == entree.skip(j as int),
            gardees@ == poses_gardees(entree.take(j as int), presentes@),
            retirees@.map_values(|n: String| n@) == noms_retires(entree.take(j as int), presentes@),
        decreases reste@.len(),
    {
        let ghost t = entree.take(j + 1);
        assert(t.drop_last() =~= entree.take(j as int));
        assert(entree.skip(j as int)[0] == entree[j as int]);
        let p = reste.remove(0);
        assert(reste@ =~= entree.skip(j + 1));
        assert(t.last() == p);
        let ghost avant = retirees@;
        if est_jouable(&p.pose.frames, presentes) {
            gardees.push(p);
        } else {
            retirees.push(p.nom);
            assert(retirees@.map_values(|n: String| n@) =~= avant.map_values(|n: String| n@).push(
                t.last().nom@,
            ));
        }
        j = j + 1;
    }
    assert(entree.take(j as int) =~= entree);
    if gardees.len() == 0 {
        return Err(ManifestError::AucunePoseJouable);
    }
    Ok((gardees, retirees))
}

/// Les poses gardées viennent de la table, une à une, et sont jouables.
proof fn lemme_gardees_jouables(p: Seq<PoseNommee>, presentes: Seq<u32>)
    ensures
        forall|k: int|
            #![trigger poses_gardees(p, presentes)[k]]
            0 <= k < poses_gardees(p, presentes).len() ==> jouable(
                poses_gardees(p, presentes)[k].pose.frames@,
                presentes,
            ),
    decreases p.len(),
{
    if p.len() > 0 {
        let d = p.drop_last();
        lemme_gardees_jouables(d, presentes);
        let g = poses_gardees(p, presentes);
        let h = poses_gardees(d, presentes);
        assert forall|k: int| #![trigger g[k]] 0 <= k < g.len() implies jouable(
            g[k].pose.frames@,
            presentes,
        ) by {
            if k < h.len() {
                assert(g[k] == h[k]);
            }
        }
    }
}

/// Chaque pose jouable de la table est gardée.
proof fn lemme_jouables_gardees(p: Seq<PoseNommee>, presentes: Seq<u32>)
    ensures
        forall|j: int|
            #![trigger p[j]]
            0 <= j < p.len() && jouable(p[j].pose.frames@, presentes) ==> poses_gardees(
                p,
                presentes,
            ).contains(p[j]),
    decreases p.len(),
{
    if p.len() > 0 {
        let d = p.drop_last();
        lemme_jouables_gardees(d, presentes);
        let g = poses_gardees(p, presentes);
        let h = poses_gardees(d, presentes);
        let n = p.len() - 1;
        assert(p.last() == p[n]);
        assert forall|j: int|
            #![trigger p[j]]
            0 <= j < p.len() && jouable(p[j].pose.frames@, presentes) implies g.contains(p[j]) by {
            if j < n {
                assert(d[j] == p[j]);
                assert(h.contains(d[j]));
                let k = choose|k: int| 0 <= k < h.len() && h[k] == d[j];
                assert(g[k] == h[k]);
            } else {
                assert(g[h.len() as int] == p[n]);
            }
        }
    }
}

/// Loi : une pose partiellement couverte est retirée entièrement — toute
/// pose gardée a au moins une image et toutes ses images — et aucune pose
/// jouable n'est retirée.
pub proof fn loi_la_couverture_partielle_retire_les_poses_incompletes(
    p: Seq<PoseNommee>,
    presentes: Seq<u32>,
)
    ensures
        forall|k: int|
            0 <= k < poses_gardees(p, presentes).len() ==> jouable(
                (#[trigger] poses_gardees(p, presentes)[k]).pose.frames@,
                presentes,
            ),
        forall|j: int|
            0 <= j < p.len() && jouable((#[trigger] p[j]).pose.frames@, presentes) ==> poses_gardees(
                p,
                presentes,
            ).contains(p[j]),
{
    lemme_gardees_jouables(p, presentes);
    lemme_jouables_gardees(p, presentes);
}

/// Loi : une pose en boucle reprend au début. Pour une pose non vide à
/// rythme non nul, l'image après `e` millisecondes est celle de rang
/// (`e` / `frame_ms`) modulo le nombre d'images ; après un cycle complet,
/// soit `frame_ms` × le nombre d'images, on revoit la même image — la
/// première au bout d'un cycle exact.
pub proof fn loi_une_pose_en_boucle_reprend_au_debut(frames: Seq<u32>, frame_ms: u32, hold: Option<u32>, e: nat)
    requires
        frames.len() > 0,
        frame_ms > 0,
        (e + cycle(frame_ms, frames.len())) / (frame_ms as nat) <= usize::MAX,
    ensures
        image_a(frames, frame_ms, true, hold, e) == frames[((e / (frame_ms as nat)) % frames.len()) as int],
        image_a(frames, frame_ms, true, hold, e + cycle(frame_ms, frames.len())) == image_a(
            frames,
            frame_ms,
            true,
            hold,
            e,
        ),
        image_a(frames, frame_ms, true, hold, cycle(frame_ms, frames.len())) == frames[0],
{
    let ms = frame_ms as nat;
    let l = frames.len();
    let q = e / ms;
    vstd::arithmetic::div_mod::lemma_hoist_over_denominator(e as int, l as int, ms);
    vstd::arithmetic::mul::lemma_mul_is_commutative(ms as int, l as int);
    assert(cycle(frame_ms, l) == l * ms);
    assert(((e + l * ms) as int) / (ms as int) == q + l);
    vstd::arithmetic::div_mod::lemma_mod_add_multiples_vanish(q as int, l as int);
    if q < l {
        vstd::arithmetic::div_mod::lemma_small_mod(q, l);
    }
    vstd::arithmetic::div_mod::lemma_small_mod(q + l, usize::MAX as nat + 1);
    vstd::arithmetic::div_mod::lemma_small_mod(q, usize::MAX as nat + 1);
    vstd::arithmetic::div_mod::lemma_hoist_over_denominator(0, l as int, ms);
    assert(((l * ms) as int) / (ms as int) == l);
    vstd::arithmetic::div_mod::lemma_small_mod(l, usize::MAX as nat + 1);
    vstd::arithmetic::div_mod::lemma_mod_add_multiples_vanish(0, l as int);
    vstd::arithmetic::div_mod::lemma_small_mod(0, l);
}

/// La durée d'un cycle d'une pose : `frame_ms` par image.
pub open spec fn cycle(frame_ms: u32, images: nat) -> nat {
    (frame_ms as nat) * images
}

/// Loi : une pose joue ses images dans l'ordre, une par `frame_ms`
/// millisecondes, tant que la séquence n'est pas finie ; une pose sans
/// image montre l'image 1 ; un rythme nul tient la première image ; et une
/// pose qui ne boucle pas, sa séquence finie, tient son image d'arrêt — ou,
/// sans elle, la dernière.
pub proof fn loi_une_pose_joue_ses_images_dans_l_ordre(
    frames: Seq<u32>,
    frame_ms: u32,
    looping: bool,
    hold: Option<u32>,
    e: nat,
)
    requires
        frame_ms > 0 ==> e / (frame_ms as nat) <= usize::MAX,
    ensures
        frames.len() == 0 ==> image_a(frames, frame_ms, looping, hold, e) == 1,
        frames.len() > 0 && frame_ms == 0 ==> image_a(frames, frame_ms, looping, hold, e) == frames[0],
        frame_ms > 0 && e / (frame_ms as nat) < frames.len() ==> image_a(frames, frame_ms, looping, hold, e)
            == frames[(e / (frame_ms as nat)) as int],
        frames.len() > 0 && frame_ms > 0 && e / (frame_ms as nat) >= frames.len() && !looping ==> image_a(
            frames,
            frame_ms,
            looping,
            hold,
            e,
        ) == match hold {
            Some(h) => h,
            None => frames[frames.len() - 1],
        },
{
    if frame_ms > 0 {
        vstd::arithmetic::div_mod::lemma_small_mod(e / (frame_ms as nat), usize::MAX as nat + 1);
    }
}

} // verus!
