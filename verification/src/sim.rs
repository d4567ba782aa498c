//! La journée scriptée que joue le mode simulation : des signaux qui
//! varient au fil des heures, pour prouver que le personnage dort au bon
//! moment — un biais constant ne se distinguerait pas d'un biais absent.

use vstd::prelude::*;
use vstd::string::StringExecFns;
use crate::duree::Duree;
use crate::probe::{Batterie, Signaux};
use crate::behavior::intention::{Intention, Jeu};
use crate::texte::egal;

verus! {

/// L'heure à laquelle commence la journée scriptée.
pub const DEBUT_DE_LA_JOURNEE: u32 = 9;

/// L'heure locale à la minute `minute` de la journée scriptée, qui
/// commence à 9 h.
pub open spec fn heure_de(minute: nat) -> nat {
    ((DEBUT_DE_LA_JOURNEE + minute / 60) % 24) as nat
}

/// Présent : 9 h–12 h, 14 h–18 h, 20 h–minuit (il travaille tard, un soir).
pub open spec fn present_a(heure: nat) -> bool {
    (9 <= heure <= 11) || (14 <= heure <= 17) || (20 <= heure <= 23)
}

/// Au clavier : les heures dont on remonte la dernière minute pour dater
/// son départ.
pub open spec fn au_clavier(heure: nat) -> bool {
    (9 <= heure <= 11) || (14 <= heure <= 17) || (20 <= heure <= 21)
}

/// `recul` est le nombre de minutes écoulées, à la minute `minute`, depuis
/// la dernière minute passée au clavier — ou `minute + 1` s'il n'y en a
/// aucune avant.
pub open spec fn est_le_recul(minute: nat, recul: nat) -> bool {
    &&& 1 <= recul <= minute + 1
    &&& forall|j: nat| 1 <= j < recul ==> !au_clavier(#[trigger] heure_de((minute - j) as nat))
    &&& recul <= minute ==> au_clavier(heure_de((minute - recul) as nat))
}

fn heure_a(minute: u32) -> (h: u8)
    ensures
        h as nat == heure_de(minute as nat),
{
    ((DEBUT_DE_LA_JOURNEE + minute / 60) % 24) as u8
}

fn present(h: u8) -> (r: bool)
    ensures
        r == present_a(h as nat),
{
    (9 <= h && h <= 11) || (14 <= h && h <= 17) || (20 <= h && h <= 23)
}

fn clavier(h: u8) -> (r: bool)
    ensures
        r == au_clavier(h as nat),
{
    (9 <= h && h <= 11) || (14 <= h && h <= 17) || (20 <= h && h <= 21)
}

/// Les signaux de la minute `minute` de la journée scriptée : l'heure, la
/// présence, l'inactivité depuis le départ, et « Code.exe » au premier
/// plan pendant les heures de présence. Sur secteur, session ouverte.
///
/// Déterministe : à minute égale, mêmes signaux ; appelable pour n'importe
/// quelle minute dans n'importe quel ordre.
pub fn signaux_de_la_journee(minute: u32) -> (s: Signaux)
    ensures
        s.heure == heure_de(minute as nat),
        present_a(heure_de(minute as nat)) ==> s.inactivite@ == 0,
        !present_a(heure_de(minute as nat)) ==> exists|recul: nat|
            est_le_recul(minute as nat, recul) && s.inactivite@ == recul * 60_000_000_000,
        s.inactivite.bien_formee(),
        present_a(heure_de(minute as nat)) ==> (s.appli_active matches Some(a) && a@ == "Code.exe"@),
        !present_a(heure_de(minute as nat)) ==> s.appli_active is None,
        s.batterie == (Batterie { pourcent: None, sur_secteur: true }),
        !s.session_verrouillee,
{
    let heure = heure_a(minute);
    let est_present = present(heure);
    let inactivite = if est_present {
        Duree::zero()
    } else {
        let mut recul: u32 = 1;
        assert(heure_de(0) == 9);
        while recul <= minute
            invariant
                1 <= recul <= minute + 1,
                heure_de(0) == 9,
                forall|j: nat| 1 <= j < recul ==> !au_clavier(#[trigger] heure_de((minute - j) as nat)),
            ensures
                est_le_recul(minute as nat, recul as nat),
            decreases minute + 1 - recul,
        {
            let h = heure_a(minute - recul);
            if clavier(h) {
                break;
            }
            assert(recul < minute);
            recul = recul + 1;
        }
        Duree::from_secs(recul as u64 * 60)
    };
    let appli_active = if est_present {
        Some(String::from_str("Code.exe"))
    } else {
        None
    };
    Signaux {
        inactivite,
        appli_active,
        heure,
        batterie: Batterie { pourcent: None, sur_secteur: true },
        session_verrouillee: false,
    }
}

/// Loi : la journée scriptée tient en vingt-quatre heures — l'heure reste
/// entre 0 et 23, et la même minute d'un jour à l'autre donne la même heure,
/// donc les mêmes signaux de présence.
pub proof fn loi_la_journee_tient_en_vingt_quatre_heures(minute: nat)
    ensures
        heure_de(minute) < 24,
        heure_de(minute + 24 * 60) == heure_de(minute),
        present_a(heure_de(minute + 24 * 60)) == present_a(heure_de(minute)),
{
    assert((minute + 24 * 60) / 60 == minute / 60 + 24);
}

// ── Le résumé d'une simulation ──────────────────────────────────────────

/// Ce qu'une image de simulation montre du personnage : ce que le résumé en
/// retient. Les positions sont déjà arrondies au pixel.
pub struct Observation {
    /// L'instant simulé, en nanosecondes.
    pub maintenant_ns: u64,
    /// Un réflexe a-t-il joué à cette image ?
    pub reflexe: bool,
    /// Dort-il ?
    pub dort: bool,
    /// L'heure de la journée simulée, de 0 à 23.
    pub heure: u8,
    /// Est-il accroché à un mur ou au plafond ?
    pub accroche: bool,
    /// Grimpe-t-il, et si oui est-il au plafond ?
    pub phase_grimpe: Option<bool>,
    /// Son intention, et l'instant où elle a été tirée.
    pub intention: Option<(Intention, u64)>,
    /// Sa pose.
    pub pose: String,
    /// Sa position, arrondie au pixel.
    pub x: i64,
    pub y: i64,
}

/// Une observation, en spécification.
pub struct ObservationVue {
    pub maintenant_ns: u64,
    pub reflexe: bool,
    pub dort: bool,
    pub heure: u8,
    pub accroche: bool,
    pub phase_grimpe: Option<bool>,
    pub intention: Option<(Intention, u64)>,
    pub pose: Seq<char>,
    pub x: i64,
    pub y: i64,
}

impl View for Observation {
    type V = ObservationVue;

    open spec fn view(&self) -> ObservationVue {
        ObservationVue {
            maintenant_ns: self.maintenant_ns,
            reflexe: self.reflexe,
            dort: self.dort,
            heure: self.heure,
            accroche: self.accroche,
            phase_grimpe: self.phase_grimpe,
            intention: self.intention,
            pose: self.pose@,
            x: self.x,
            y: self.y,
        }
    }
}

/// Ce qu'une simulation retient, image après image.
pub struct Resume {
    /// Les images observées.
    pub images: u64,
    /// Les intentions tirées.
    pub intentions_tirees: u64,
    /// Les images où un réflexe a joué.
    pub reflexes: u64,
    /// Les poses vues, chacune une fois, dans l'ordre où elles sont apparues.
    pub poses_vues: Vec<String>,
    /// La plus longue immobilité, en nanosecondes : ni pose, ni pixel, ni
    /// intention n'ont changé.
    pub blocage_max_ns: u64,
    /// L'empreinte de la suite des intentions tirées.
    pub signature: u64,
    /// Les images où il dormait.
    pub images_endormi: u64,
    /// Les réveils : il dormait, il ne dort plus.
    pub reveils: u64,
    /// Les images où il dormait, heure par heure.
    pub images_endormi_par_heure: Vec<u64>,
    /// Les images où il était accroché à un mur ou au plafond.
    pub images_accroche: u64,
    /// Les arrivées au plafond.
    pub plafonds_atteints: u64,
    /// Dormait-il à l'image précédente ?
    pub dormait: bool,
    /// Était-il au plafond à l'image précédente ?
    pub au_plafond: bool,
    /// L'intention de l'image précédente.
    pub intention_precedente: Option<(Intention, u64)>,
    /// Pose, position et nombre d'intentions à la dernière image qui a changé.
    pub empreinte: (String, i64, i64, u64),
    /// L'instant de ce dernier changement.
    pub depuis_changement_ns: u64,
}

/// Le résumé, en spécification.
pub struct ResumeVue {
    pub images: u64,
    pub intentions_tirees: u64,
    pub reflexes: u64,
    pub poses_vues: Seq<Seq<char>>,
    pub blocage_max_ns: u64,
    pub signature: u64,
    pub images_endormi: u64,
    pub reveils: u64,
    pub images_endormi_par_heure: Seq<u64>,
    pub images_accroche: u64,
    pub plafonds_atteints: u64,
    pub dormait: bool,
    pub au_plafond: bool,
    pub intention_precedente: Option<(Intention, u64)>,
    pub empreinte: (Seq<char>, i64, i64, u64),
    pub depuis_changement_ns: u64,
}

impl View for Resume {
    type V = ResumeVue;

    open spec fn view(&self) -> ResumeVue {
        ResumeVue {
            images: self.images,
            intentions_tirees: self.intentions_tirees,
            reflexes: self.reflexes,
            poses_vues: self.poses_vues@.map_values(|p: String| p@),
            blocage_max_ns: self.blocage_max_ns,
            signature: self.signature,
            images_endormi: self.images_endormi,
            reveils: self.reveils,
            images_endormi_par_heure: self.images_endormi_par_heure@,
            images_accroche: self.images_accroche,
            plafonds_atteints: self.plafonds_atteints,
            dormait: self.dormait,
            au_plafond: self.au_plafond,
            intention_precedente: self.intention_precedente,
            empreinte: (self.empreinte.0@, self.empreinte.1, self.empreinte.2, self.empreinte.3),
            depuis_changement_ns: self.depuis_changement_ns,
        }
    }
}

/// Le jeton d'une intention dans la signature.
pub open spec fn jeton(i: Intention) -> u64 {
    match i {
        Intention::Flaner => 1,
        Intention::SeReposer => 2,
        Intention::Jouer(Jeu::TeteQuiTourne) => 3,
        Intention::Jouer(Jeu::JambesQuiBalancent) => 4,
        Intention::Grimper => 5,
    }
}

/// La signature après une intention de plus : `s × 0x100_0000_01b3 + jeton`,
/// modulo 2⁶⁴.
pub open spec fn signature_suivante(s: u64, j: u64) -> u64 {
    vstd::wrapping::u64_specs::wrapping_add(vstd::wrapping::u64_specs::wrapping_mul(s, 0x100_0000_01b3), j)
}

/// Un si `b`, zéro sinon.
pub open spec fn un_si(b: bool) -> int {
    if b { 1 } else { 0 }
}

/// Ce que devient le résumé après une image.
pub open spec fn observe(r: ResumeVue, o: ObservationVue) -> ResumeVue {
    let change = o.intention != r.intention_precedente;
    let tiree = change && o.intention is Some;
    let intentions = (r.intentions_tirees + un_si(tiree)) as u64;
    let empreinte = (o.pose, o.x, o.y, intentions);
    let immobile = if o.maintenant_ns >= r.depuis_changement_ns {
        (o.maintenant_ns - r.depuis_changement_ns) as u64
    } else {
        0u64
    };
    ResumeVue {
        images: (r.images + 1) as u64,
        intentions_tirees: intentions,
        reflexes: (r.reflexes + un_si(o.reflexe)) as u64,
        poses_vues: if r.poses_vues.contains(o.pose) { r.poses_vues } else { r.poses_vues.push(o.pose) },
        blocage_max_ns: if empreinte != r.empreinte || immobile <= r.blocage_max_ns {
            r.blocage_max_ns
        } else {
            immobile
        },
        signature: if tiree { signature_suivante(r.signature, jeton((o.intention->0).0)) } else { r.signature },
        images_endormi: (r.images_endormi + un_si(o.dort)) as u64,
        reveils: (r.reveils + un_si(r.dormait && !o.dort)) as u64,
        images_endormi_par_heure: if o.dort {
            r.images_endormi_par_heure.update(
                o.heure as int,
                (r.images_endormi_par_heure[o.heure as int] + 1) as u64,
            )
        } else {
            r.images_endormi_par_heure
        },
        images_accroche: (r.images_accroche + un_si(o.accroche)) as u64,
        plafonds_atteints: (r.plafonds_atteints + un_si(o.phase_grimpe == Some(true) && !r.au_plafond)) as u64,
        dormait: o.dort,
        au_plafond: o.phase_grimpe == Some(true),
        intention_precedente: o.intention,
        empreinte,
        depuis_changement_ns: if empreinte != r.empreinte { o.maintenant_ns } else { r.depuis_changement_ns },
    }
}

impl Resume {
    /// Le résumé est cohérent : aucun compte ne dépasse celui des images.
    pub open spec fn bien_forme(&self) -> bool {
        let r = self@;
        &&& r.intentions_tirees <= r.images
        &&& r.reflexes <= r.images
        &&& r.images_endormi <= r.images
        &&& r.reveils <= r.images
        &&& r.images_accroche <= r.images
        &&& r.plafonds_atteints <= r.images
        &&& r.empreinte.3 == r.intentions_tirees
        &&& r.images_endormi_par_heure.len() == 24
        &&& forall|h: int| 0 <= h < 24 ==> #[trigger] r.images_endormi_par_heure[h] <= r.images
    }

    /// Le résumé d'une simulation qui n'a encore rien vu.
    pub fn nouveau() -> (r: Resume)
        ensures
            r.bien_forme(),
            r@.images == 0 && r@.intentions_tirees == 0 && r@.reflexes == 0,
            r@.poses_vues.len() == 0,
            r@.blocage_max_ns == 0 && r@.signature == 0,
            r@.images_endormi == 0 && r@.reveils == 0,
            r@.images_endormi_par_heure == Seq::new(24, |h: int| 0u64),
            r@.images_accroche == 0 && r@.plafonds_atteints == 0,
            !r@.dormait && !r@.au_plafond && r@.intention_precedente is None,
            r@.empreinte == (Seq::<char>::empty(), 0i64, 0i64, 0u64),
            r@.depuis_changement_ns == 0,
    {
        let mut par_heure: Vec<u64> = Vec::new();
        let mut h: usize = 0;
        while h < 24
            invariant
                h <= 24,
                par_heure@ == Seq::new(h as nat, |k: int| 0u64),
            decreases 24 - h,
        {
            par_heure.push(0);
            assert(par_heure@ =~= Seq::new((h + 1) as nat, |k: int| 0u64));
            h = h + 1;
        }
        let r = Resume {
            images: 0,
            intentions_tirees: 0,
            reflexes: 0,
            poses_vues: Vec::new(),
            blocage_max_ns: 0,
            signature: 0,
            images_endormi: 0,
            reveils: 0,
            images_endormi_par_heure: par_heure,
            images_accroche: 0,
            plafonds_atteints: 0,
            dormait: false,
            au_plafond: false,
            intention_precedente: None,
            empreinte: (String::new(), 0, 0, 0),
            depuis_changement_ns: 0,
        };
        assert(r@.poses_vues =~= Seq::<Seq<char>>::empty());
        r
    }
}

fn jeton_de(i: Intention) -> (j: u64)
    ensures
        j == jeton(i),
{
    match i {
        Intention::Flaner => 1,
        Intention::SeReposer => 2,
        Intention::Jouer(Jeu::TeteQuiTourne) => 3,
        Intention::Jouer(Jeu::JambesQuiBalancent) => 4,
        Intention::Grimper => 5,
    }
}

fn meme_intention(a: Option<(Intention, u64)>, b: Option<(Intention, u64)>) -> (r: bool)
    ensures
        r == (a == b),
{
    match (a, b) {
        (Some((i, t)), Some((j, u))) => {
            let memes = match (i, j) {
                (Intention::Flaner, Intention::Flaner) => true,
                (Intention::SeReposer, Intention::SeReposer) => true,
                (Intention::Grimper, Intention::Grimper) => true,
                (Intention::Jouer(Jeu::TeteQuiTourne), Intention::Jouer(Jeu::TeteQuiTourne)) => true,
                (Intention::Jouer(Jeu::JambesQuiBalancent), Intention::Jouer(Jeu::JambesQuiBalancent)) => true,
                _ => false,
            };
            memes && t == u
        },
        (None, None) => true,
        _ => false,
    }
}

/// La pose est-elle déjà parmi celles vues ?
fn deja_vue(poses: &Vec<String>, pose: &str) -> (r: bool)
    ensures
        r == poses@.map_values(|p: String| p@).contains(pose@),
{
    let ghost v = poses@.map_values(|p: String| p@);
    let mut i: usize = 0;
    while i < poses.len()
        invariant
            i <= poses@.len(),
            v == poses@.map_values(|p: String| p@),
            forall|j: int| 0 <= j < i ==> v[j] != pose@,
        decreases poses@.len() - i,
    {
        if egal(poses[i].as_str(), pose) {
            assert(v[i as int] == pose@);
            return true;
        }
        i = i + 1;
    }
    false
}

/// Ajoute l'image `o` au résumé : compte ce qu'elle montre, et suit ce qui
/// change d'une image à l'autre.
pub fn observer(r: &mut Resume, o: Observation)
    requires
        old(r).bien_forme(),
        old(r).images < u64::MAX,
        o.heure < 24,
    ensures
        final(r).bien_forme(),
        final(r)@ == observe(old(r)@, o@),
{
    let ghost avant = r@;
    let change = !meme_intention(o.intention, r.intention_precedente);
    let tiree = change && o.intention.is_some();
    if tiree {
        r.intentions_tirees = r.intentions_tirees + 1;
        match o.intention {
            Some((i, _)) => {
                r.signature = r.signature.wrapping_mul(0x100_0000_01b3).wrapping_add(jeton_de(i));
            },
            None => {},
        }
    }
    if o.reflexe {
        r.reflexes = r.reflexes + 1;
    }
    if o.dort {
        r.images_endormi = r.images_endormi + 1;
        let h = o.heure as usize;
        let n = r.images_endormi_par_heure[h];
        r.images_endormi_par_heure.set(h, n + 1);
    }
    if r.dormait && !o.dort {
        r.reveils = r.reveils + 1;
    }
    r.dormait = o.dort;
    if o.accroche {
        r.images_accroche = r.images_accroche + 1;
    }
    let au_plafond = match o.phase_grimpe {
        Some(p) => p,
        None => false,
    };
    if au_plafond && !r.au_plafond {
        r.plafonds_atteints = r.plafonds_atteints + 1;
    }
    r.au_plafond = au_plafond;
    r.intention_precedente = o.intention;
    if !deja_vue(&r.poses_vues, o.pose.as_str()) {
        let p = o.pose.clone();
        r.poses_vues.push(p);
        assert(r@.poses_vues =~= avant.poses_vues.push(o@.pose));
    }
    let meme = egal(o.pose.as_str(), r.empreinte.0.as_str()) && o.x == r.empreinte.1 && o.y == r.empreinte.2
        && r.intentions_tirees == r.empreinte.3;
    if !meme {
        r.empreinte = (o.pose, o.x, o.y, r.intentions_tirees);
        r.depuis_changement_ns = o.maintenant_ns;
    } else {
        let immobile = if o.maintenant_ns >= r.depuis_changement_ns {
            o.maintenant_ns - r.depuis_changement_ns
        } else {
            0
        };
        if immobile > r.blocage_max_ns {
            r.blocage_max_ns = immobile;
        }
    }
    r.images = r.images + 1;
    assert(r@.images_endormi_par_heure =~= observe(avant, o@).images_endormi_par_heure);
}

/// Un pas du résumé, vu du sommeil seulement.
proof fn lemme_sommeil(r: ResumeVue, o: ObservationVue)
    requires
        r.reveils < u64::MAX,
    ensures
        observe(r, o).dormait == o.dort,
        observe(r, o).reveils == r.reveils + if r.dormait && !o.dort { 1int } else { 0int },
{
    let s = observe(r, o);
    assert(s.dormait == o.dort);
}

/// Loi : un réveil est compté quand il dormait et ne dort plus, et à aucun
/// autre moment. Une image où il dort n'en compte jamais ; s'endormir n'en
/// compte pas ; après deux images endormi de suite, le compte n'a pas
/// bougé.
pub proof fn loi_un_reveil_est_la_fin_d_un_sommeil(r: ResumeVue, o: ObservationVue, o2: ObservationVue)
    requires
        r.reveils < u64::MAX - 1,
    ensures
        o.dort ==> observe(r, o).reveils == r.reveils,
        !r.dormait ==> observe(r, o).reveils == r.reveils,
        r.dormait && !o.dort ==> observe(r, o).reveils == r.reveils + 1,
        observe(r, o).reveils == r.reveils || observe(r, o).reveils == r.reveils + 1,
        observe(r, o).dormait == o.dort,
        o.dort && o2.dort ==> observe(observe(r, o), o2).reveils == r.reveils,
        r.dormait && !o.dort && !o2.dort ==> observe(observe(r, o), o2).reveils == r.reveils + 1,
{
    lemme_sommeil(r, o);
    lemme_sommeil(observe(r, o), o2);
}

/// Loi : chaque image compte pour une, et chaque compte suit ce qu'elle
/// montre. Le nombre d'images augmente d'un ; les réflexes, le sommeil —
/// au total et dans l'heure de l'image seulement —, l'accroche augmentent
/// d'un exactement quand l'image le montre ; une arrivée au plafond compte
/// quand il y est sans y avoir été à l'image précédente ; une intention est
/// comptée quand elle diffère de la précédente et qu'il y en a une.
pub proof fn loi_chaque_image_compte_ce_qu_elle_montre(r: ResumeVue, o: ObservationVue)
    requires
        o.heure < 24,
        r.images_endormi_par_heure.len() == 24,
        r.images < u64::MAX,
        r.reflexes < u64::MAX,
        r.images_endormi < u64::MAX,
        r.images_accroche < u64::MAX,
        r.plafonds_atteints < u64::MAX,
        r.intentions_tirees < u64::MAX,
        forall|h: int| 0 <= h < 24 ==> #[trigger] r.images_endormi_par_heure[h] < u64::MAX,
    ensures
        observe(r, o).images == r.images + 1,
        observe(r, o).reflexes == r.reflexes + if o.reflexe { 1int } else { 0int },
        observe(r, o).images_endormi == r.images_endormi + if o.dort { 1int } else { 0int },
        observe(r, o).images_endormi_par_heure.len() == 24,
        forall|h: int|
            0 <= h < 24 ==> #[trigger] observe(r, o).images_endormi_par_heure[h]
                == r.images_endormi_par_heure[h] + if o.dort && h == o.heure { 1int } else { 0int },
        observe(r, o).images_accroche == r.images_accroche + if o.accroche { 1int } else { 0int },
        observe(r, o).plafonds_atteints == r.plafonds_atteints + if o.phase_grimpe == Some(true)
            && !r.au_plafond { 1int } else { 0int },
        observe(r, o).intentions_tirees == r.intentions_tirees + if o.intention is Some && o.intention
            != r.intention_precedente { 1int } else { 0int },
        observe(r, o).poses_vues.contains(o.pose),
        forall|k: int| 0 <= k < r.poses_vues.len() ==> observe(r, o).poses_vues[k] == #[trigger] r.poses_vues[k],
        observe(r, o).blocage_max_ns >= r.blocage_max_ns,
{
    if !r.poses_vues.contains(o.pose) {
        assert(r.poses_vues.push(o.pose)[r.poses_vues.len() as int] == o.pose);
    }
}

} // verus!
