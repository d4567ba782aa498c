//! Les décisions de la boucle des 60 Hz : quand lire les signaux, quand
//! recenser le monde, quand ouvrir le menu d'un personnage, quelles fenêtres
//! d'écran ouvrir ou fermer, et quelle charge envoyer à chacune.
//!
//! La boucle elle-même — dormir, lire la souris, appeler Windows, évaluer du
//! JavaScript — vit hors de la bibliothèque. Elle tend ici un événement et
//! reçoit les actions à accomplir : `pas_de_boucle` est une fonction de
//! l'état et de l'événement, et rien d'autre. Le temps est compté en
//! millisecondes depuis le démarrage.

use vstd::prelude::*;
use crate::behavior::intention::Intention;
use crate::behavior::tenue::Tenue;
use crate::menu_perso::{Commande, Ligne, LigneVue, Ou, lignes, menu, vues_lignes};
use crate::roster::{
    ActionRoster, ActionVue, loi_l_ordre_des_listes_est_indifferent, noms, plan_conforme,
    reconcilier, vues,
};
use crate::texte::egal;

verus! {

/// Entre deux lectures des signaux du système : 2 Hz.
pub const PERIODE_SIGNAUX_MS: u64 = 500;

/// Entre deux recensements du monde (écrans, témoin, rechargement) : 8 Hz.
pub const PERIODE_MONDE_MS: u64 = 125;

/// Pendant ce délai après sa création, une fenêtre d'écran reçoit tout à
/// chaque envoi, sans dédoublonnage : son script n'écoute peut-être pas
/// encore, et une charge perdue ne serait jamais renvoyée.
pub const AMORCAGE_MS: u64 = 2000;

/// Une fenêtre d'écran resté vide ne se ferme qu'après ce délai : la
/// recréer coûte des centaines de millisecondes, pendant lesquelles rien
/// n'y serait dessiné.
pub const GRACE_ECRAN_VIDE_MS: u64 = 3000;

/// Entre deux envois de charges : 15 Hz.
pub const PERIODE_ENVOI_MS: u64 = 66;

/// Une fenêtre d'écran ouverte, et ce que la boucle en retient.
pub struct Ecran {
    /// L'identifiant de l'écran qu'elle couvre.
    pub id: u64,
    /// Depuis quand elle ne porte plus aucun sprite.
    pub vide_depuis: Option<u64>,
    /// Jusqu'à quand elle est en amorçage.
    pub amorce_jusqu_a: u64,
    /// La dernière charge qui lui a été envoyée.
    pub derniere: Option<String>,
    /// Laisse-t-elle passer les clics ? `None` tant que rien n'a été réglé.
    pub traverse: Option<bool>,
}

/// Une fenêtre d'écran, en spécification.
pub struct EcranVue {
    pub id: u64,
    pub vide_depuis: Option<u64>,
    pub amorce_jusqu_a: u64,
    pub derniere: Option<Seq<char>>,
    pub traverse: Option<bool>,
}

impl View for Ecran {
    type V = EcranVue;

    open spec fn view(&self) -> EcranVue {
        EcranVue {
            id: self.id,
            vide_depuis: self.vide_depuis,
            amorce_jusqu_a: self.amorce_jusqu_a,
            derniere: match self.derniere {
                Some(s) => Some(s@),
                None => None,
            },
            traverse: self.traverse,
        }
    }
}

/// Les vues d'une suite de fenêtres.
pub open spec fn vues_ecrans(e: Seq<Ecran>) -> Seq<EcranVue> {
    e.map_values(|x: Ecran| x@)
}

/// L'état que la boucle garde d'une image à l'autre.
pub struct EtatBoucle {
    /// L'instant de la dernière lecture des signaux.
    pub dernier_signal: u64,
    /// L'instant du dernier recensement du monde.
    pub dernier_recensement: u64,
    /// La session était-elle verrouillée à la dernière lecture ?
    pub verrouille: bool,
    /// Le bouton droit était-il enfoncé à la dernière lecture de la souris ?
    pub bouton_droit: bool,
    /// L'acteur qui a ouvert le dernier menu, à qui revient la commande.
    pub demandeur: Option<u32>,
    /// Les acteurs ont changé : la table des packs est à republier.
    pub a_declarer: bool,
    /// Pas d'envoi de charges avant cet instant.
    pub prochain_envoi: u64,
    /// Les fenêtres d'écran ouvertes, une par écran, dans l'ordre où elles
    /// ont été ouvertes. Une suite et non une table : c'est cet ordre qui
    /// fixe celui des actions rendues — fermetures, réglages des clics —, et
    /// le contrat peut ainsi dire lesquelles viennent, et dans quel ordre.
    pub ecrans: Vec<Ecran>,
}

/// L'état de la boucle, en spécification.
pub struct EtatVue {
    pub dernier_signal: u64,
    pub dernier_recensement: u64,
    pub verrouille: bool,
    pub bouton_droit: bool,
    pub demandeur: Option<u32>,
    pub a_declarer: bool,
    pub prochain_envoi: u64,
    pub ecrans: Seq<EcranVue>,
}

impl View for EtatBoucle {
    type V = EtatVue;

    open spec fn view(&self) -> EtatVue {
        EtatVue {
            dernier_signal: self.dernier_signal,
            dernier_recensement: self.dernier_recensement,
            verrouille: self.verrouille,
            bouton_droit: self.bouton_droit,
            demandeur: self.demandeur,
            a_declarer: self.a_declarer,
            prochain_envoi: self.prochain_envoi,
            ecrans: vues_ecrans(self.ecrans@),
        }
    }
}

/// Au plus une fenêtre par écran.
pub open spec fn ids_distincts(e: Seq<EcranVue>) -> bool {
    forall|i: int, j: int| 0 <= i < j < e.len() ==> (#[trigger] e[i]).id != (#[trigger] e[j]).id
}

impl EtatBoucle {
    /// L'état est bien formé : au plus une fenêtre par écran.
    pub open spec fn bien_forme(&self) -> bool {
        ids_distincts(self@.ecrans)
    }

    /// L'état du démarrage : rien de lu, rien d'ouvert. Les signaux se lisent
    /// pour la première fois à 500 ms, le monde se recense à 125 ms.
    pub fn nouveau() -> (e: EtatBoucle)
        ensures
            e.bien_forme(),
            e@ == etat_initial(),
    {
        let e = EtatBoucle {
            dernier_signal: 0,
            dernier_recensement: 0,
            verrouille: false,
            bouton_droit: false,
            demandeur: None,
            a_declarer: false,
            prochain_envoi: 0,
            ecrans: Vec::new(),
        };
        assert(vues_ecrans(e.ecrans@) =~= Seq::<EcranVue>::empty());
        e
    }
}

/// L'état du démarrage, en spécification.
pub open spec fn etat_initial() -> EtatVue {
    EtatVue {
        dernier_signal: 0,
        dernier_recensement: 0,
        verrouille: false,
        bouton_droit: false,
        demandeur: None,
        a_declarer: false,
        prochain_envoi: 0,
        ecrans: Seq::empty(),
    }
}

/// Le personnage sous le curseur, et ce qu'il faut savoir pour décrire son
/// menu.
pub struct Sujet {
    pub id: u32,
    pub ou: Ou,
    pub tenue: Option<Tenue>,
    pub jouables: Vec<Intention>,
    pub presents: Vec<Option<Tenue>>,
}

/// Ce qui arrive à la boucle.
pub enum Evenement {
    /// Une image commence, à cet instant.
    Tick { maintenant: u64 },
    /// Les signaux viennent d'être lus : la session est-elle verrouillée, et
    /// l'utilisateur veut-il voir les personnages ?
    Signaux { verrouillee: bool, visible_voulu: bool },
    /// La souris vient d'être lue : le bouton droit, et le personnage élu
    /// sous le curseur.
    Souris { droit_enfonce: bool, sous_le_curseur: Option<Sujet> },
    /// Une entrée du menu a été choisie.
    Commande { commande: Commande },
    /// Une demande de rechargement : les présents (ceux qui ne sont pas
    /// déjà en train de partir) et les voulus ; `sans_animation` retire sans
    /// jouer le départ, quand les fichiers du personnage vont disparaître.
    Roster { presents: Vec<String>, voulus: Vec<String>, sans_animation: bool },
    /// Un acteur a quitté la scène.
    ActeurRetire,
    /// Les charges de cette image, écran par écran.
    Image { maintenant: u64, charges: Vec<(u64, String)> },
    /// La fenêtre de cet écran n'a pas pu être créée.
    EcranRefuse { ecran: u64 },
    /// L'envoi de la charge à cet écran a échoué.
    EnvoiEchoue { ecran: u64 },
    /// L'écran du personnage sous le curseur ou porté, s'il y en a un : sa
    /// fenêtre doit absorber les clics, toutes les autres les laisser passer.
    Clics { ecran_absorbant: Option<u64> },
    /// Le réglage des clics de cet écran a échoué.
    TraverseeEchouee { ecran: u64 },
}

/// Ce qui arrive à la boucle, en spécification.
pub enum EvenementVue {
    Tick { maintenant: u64 },
    Signaux { verrouillee: bool, visible_voulu: bool },
    Souris {
        droit_enfonce: bool,
        sous_le_curseur: Option<(u32, Ou, Option<Tenue>, Seq<Intention>, Seq<Option<Tenue>>)>,
    },
    Commande { commande: Commande },
    Roster { presents: Seq<Seq<char>>, voulus: Seq<Seq<char>>, sans_animation: bool },
    ActeurRetire,
    Image { maintenant: u64, charges: Seq<(u64, Seq<char>)> },
    EcranRefuse { ecran: u64 },
    EnvoiEchoue { ecran: u64 },
    Clics { ecran_absorbant: Option<u64> },
    TraverseeEchouee { ecran: u64 },
}

/// Les vues d'une suite de charges.
pub open spec fn vues_charges(c: Seq<(u64, String)>) -> Seq<(u64, Seq<char>)> {
    c.map_values(|x: (u64, String)| (x.0, x.1@))
}

impl View for Evenement {
    type V = EvenementVue;

    open spec fn view(&self) -> EvenementVue {
        match self {
            Evenement::Tick { maintenant } => EvenementVue::Tick { maintenant: *maintenant },
            Evenement::Signaux { verrouillee, visible_voulu } => EvenementVue::Signaux {
                verrouillee: *verrouillee,
                visible_voulu: *visible_voulu,
            },
            Evenement::Souris { droit_enfonce, sous_le_curseur } => EvenementVue::Souris {
                droit_enfonce: *droit_enfonce,
                sous_le_curseur: match sous_le_curseur {
                    Some(s) => Some((s.id, s.ou, s.tenue, s.jouables@, s.presents@)),
                    None => None,
                },
            },
            Evenement::Commande { commande } => EvenementVue::Commande { commande: *commande },
            Evenement::Roster { presents, voulus, sans_animation } => EvenementVue::Roster {
                presents: noms(presents@),
                voulus: noms(voulus@),
                sans_animation: *sans_animation,
            },
            Evenement::ActeurRetire => EvenementVue::ActeurRetire,
            Evenement::Image { maintenant, charges } => EvenementVue::Image {
                maintenant: *maintenant,
                charges: vues_charges(charges@),
            },
            Evenement::EcranRefuse { ecran } => EvenementVue::EcranRefuse { ecran: *ecran },
            Evenement::EnvoiEchoue { ecran } => EvenementVue::EnvoiEchoue { ecran: *ecran },
            Evenement::Clics { ecran_absorbant } => EvenementVue::Clics { ecran_absorbant: *ecran_absorbant },
            Evenement::TraverseeEchouee { ecran } => EvenementVue::TraverseeEchouee { ecran: *ecran },
        }
    }
}

/// Ce que la boucle doit faire.
#[derive(Debug, PartialEq, Eq)]
pub enum ActionBoucle {
    /// Lire les signaux du système.
    LireSignaux,
    /// Recenser les écrans, le fichier témoin et la demande de rechargement.
    Recenser,
    /// Poser l'intention du réveil sur chaque acteur qui ne s'éveille pas
    /// déjà : la session vient d'être déverrouillée.
    Reveiller,
    /// Montrer ou cacher les fenêtres des personnages.
    Visibilite(bool),
    /// Ouvrir le menu de cet acteur, avec ces lignes.
    OuvrirMenu { acteur: u32, lignes: Vec<Ligne> },
    /// Donner cette commande à cet acteur.
    Commander { acteur: u32, commande: Commande },
    /// Créer un personnage, ou en retirer un sur-le-champ.
    Roster(ActionRoster),
    /// Faire partir un personnage de ce nom, le plus récent : il joue son
    /// départ, et la boucle est prévenue quand il a quitté la scène.
    Partir(String),
    /// Créer la fenêtre de cet écran.
    OuvrirEcran(u64),
    /// Détruire la fenêtre de cet écran.
    FermerEcran(u64),
    /// Republier la table des packs dans toutes les fenêtres d'écran.
    Declarer,
    /// Envoyer cette charge à cet écran.
    Envoyer { ecran: u64, js: String },
    /// Laisser passer les clics à travers la fenêtre de cet écran, ou les
    /// absorber.
    TraverserClics { ecran: u64, traverser: bool },
}

/// Ce que la boucle doit faire, en spécification.
pub enum ActionBoucleVue {
    LireSignaux,
    Recenser,
    Reveiller,
    Visibilite(bool),
    OuvrirMenu { acteur: u32, lignes: Seq<LigneVue> },
    Commander { acteur: u32, commande: Commande },
    Roster(ActionVue),
    Partir(Seq<char>),
    OuvrirEcran(u64),
    FermerEcran(u64),
    Declarer,
    Envoyer { ecran: u64, js: Seq<char> },
    TraverserClics { ecran: u64, traverser: bool },
}

impl View for ActionBoucle {
    type V = ActionBoucleVue;

    open spec fn view(&self) -> ActionBoucleVue {
        match self {
            ActionBoucle::LireSignaux => ActionBoucleVue::LireSignaux,
            ActionBoucle::Recenser => ActionBoucleVue::Recenser,
            ActionBoucle::Reveiller => ActionBoucleVue::Reveiller,
            ActionBoucle::Visibilite(v) => ActionBoucleVue::Visibilite(*v),
            ActionBoucle::OuvrirMenu { acteur, lignes } => ActionBoucleVue::OuvrirMenu {
                acteur: *acteur,
                lignes: vues_lignes(lignes@),
            },
            ActionBoucle::Commander { acteur, commande } => ActionBoucleVue::Commander {
                acteur: *acteur,
                commande: *commande,
            },
            ActionBoucle::Roster(a) => ActionBoucleVue::Roster(a@),
            ActionBoucle::Partir(n) => ActionBoucleVue::Partir(n@),
            ActionBoucle::OuvrirEcran(id) => ActionBoucleVue::OuvrirEcran(*id),
            ActionBoucle::FermerEcran(id) => ActionBoucleVue::FermerEcran(*id),
            ActionBoucle::Declarer => ActionBoucleVue::Declarer,
            ActionBoucle::Envoyer { ecran, js } => ActionBoucleVue::Envoyer { ecran: *ecran, js: js@ },
            ActionBoucle::TraverserClics { ecran, traverser } => ActionBoucleVue::TraverserClics {
                ecran: *ecran,
                traverser: *traverser,
            },
        }
    }
}

/// Les vues d'une suite d'actions.
pub open spec fn vues_actions(a: Seq<ActionBoucle>) -> Seq<ActionBoucleVue> {
    a.map_values(|x: ActionBoucle| x@)
}

// ── Le temps ────────────────────────────────────────────────────────────

/// `t + d`, borné au plus grand instant représentable.
pub open spec fn plus_borne(t: u64, d: u64) -> u64 {
    if t + d > u64::MAX {
        u64::MAX
    } else {
        (t + d) as u64
    }
}

/// `d` s'est-il écoulé depuis `depuis`, à l'instant `t` ? Un instant
/// antérieur ne compte pas comme écoulé.
pub open spec fn ecoule(t: u64, depuis: u64, d: u64) -> bool {
    t >= depuis + d
}

fn plus_borne_exec(t: u64, d: u64) -> (r: u64)
    ensures
        r == plus_borne(t, d),
{
    t.saturating_add(d)
}

fn ecoule_exec(t: u64, depuis: u64, d: u64) -> (r: bool)
    ensures
        r == ecoule(t, depuis, d),
{
    t >= depuis && t - depuis >= d
}

// ── Les événements simples ──────────────────────────────────────────────

/// Une image commence : lire les signaux toutes les 500 ms, recenser le
/// monde toutes les 125 ms.
pub open spec fn pas_tick(s: EtatVue, t: u64) -> (EtatVue, Seq<ActionBoucleVue>) {
    let signal = ecoule(t, s.dernier_signal, PERIODE_SIGNAUX_MS);
    let recensement = ecoule(t, s.dernier_recensement, PERIODE_MONDE_MS);
    let s1 = if signal {
        EtatVue { dernier_signal: t, ..s }
    } else {
        s
    };
    let s2 = if recensement {
        EtatVue { dernier_recensement: t, ..s1 }
    } else {
        s1
    };
    let a1 = if signal {
        seq![ActionBoucleVue::LireSignaux]
    } else {
        Seq::empty()
    };
    let a2 = if recensement {
        a1.push(ActionBoucleVue::Recenser)
    } else {
        a1
    };
    (s2, a2)
}

/// Les signaux sont lus : sur un changement du verrouillage, cacher ou
/// remontrer les personnages — sans défaire le choix de l'utilisateur — et,
/// au déverrouillage, les réveiller.
pub open spec fn pas_signaux(s: EtatVue, verrouillee: bool, visible_voulu: bool) -> (
    EtatVue,
    Seq<ActionBoucleVue>,
) {
    if verrouillee == s.verrouille {
        (s, Seq::empty())
    } else if verrouillee {
        (
            EtatVue { verrouille: true, ..s },
            seq![ActionBoucleVue::Visibilite(false)],
        )
    } else {
        (
            EtatVue { verrouille: false, ..s },
            seq![ActionBoucleVue::Reveiller, ActionBoucleVue::Visibilite(visible_voulu)],
        )
    }
}

/// Le front du clic droit : le bouton était enfoncé, il ne l'est plus.
pub open spec fn front_droit(s: EtatVue, droit_enfonce: bool) -> bool {
    s.bouton_droit && !droit_enfonce
}

/// La souris est lue : au front du clic droit, ouvrir le menu du
/// personnage sous le curseur, qui devient le destinataire de la commande.
pub open spec fn pas_souris(
    s: EtatVue,
    droit_enfonce: bool,
    sous: Option<(u32, Ou, Option<Tenue>, Seq<Intention>, Seq<Option<Tenue>>)>,
) -> (EtatVue, Seq<ActionBoucleVue>) {
    let s1 = EtatVue { bouton_droit: droit_enfonce, ..s };
    if front_droit(s, droit_enfonce) && sous is Some {
        let (id, ou, tenue, jouables, presents) = sous->0;
        (
            EtatVue { demandeur: Some(id), ..s1 },
            seq![
                ActionBoucleVue::OuvrirMenu {
                    acteur: id,
                    lignes: menu(ou, jouables, tenue, presents),
                },
            ],
        )
    } else {
        (s1, Seq::empty())
    }
}

/// Une entrée du menu est choisie : elle va à l'acteur qui a ouvert le
/// menu, et à personne d'autre ; sans demandeur, elle se perd.
pub open spec fn pas_commande(s: EtatVue, c: Commande) -> (EtatVue, Seq<ActionBoucleVue>) {
    match s.demandeur {
        Some(id) => (
            EtatVue { demandeur: None, ..s },
            seq![ActionBoucleVue::Commander { acteur: id, commande: c }],
        ),
        None => (s, Seq::empty()),
    }
}

/// Le plan qui mène des présents aux voulus : le seul qui soit conforme.
pub open spec fn plan(p: Seq<Seq<char>>, v: Seq<Seq<char>>) -> Seq<ActionVue> {
    choose|r: Seq<ActionVue>| plan_conforme(p, v, r)
}

/// Ce que la boucle fait d'une action du plan : une création crée ; un
/// retrait fait partir le personnage, ou le retire sur-le-champ quand le
/// départ n'est pas joué.
pub open spec fn action_du_plan(a: ActionVue, sans_animation: bool) -> ActionBoucleVue {
    match a {
        ActionVue::Creer(n) => ActionBoucleVue::Roster(ActionVue::Creer(n)),
        ActionVue::RetirerUn(n) => if sans_animation {
            ActionBoucleVue::Roster(ActionVue::RetirerUn(n))
        } else {
            ActionBoucleVue::Partir(n)
        },
    }
}

/// Cette action change-t-elle les acteurs à l'instant même ? Une création,
/// ou un retrait sans départ.
pub open spec fn change_les_acteurs(a: ActionVue, sans_animation: bool) -> bool {
    a is Creer || sans_animation
}

/// Le plan change-t-il les acteurs à l'instant même ?
pub open spec fn plan_change_les_acteurs(r: Seq<ActionVue>, sans_animation: bool) -> bool {
    exists|k: int| 0 <= k < r.len() && change_les_acteurs(#[trigger] r[k], sans_animation)
}

/// Une demande de rechargement : le plan du roster, action par action ; un
/// acteur créé ou retiré sur-le-champ oblige à republier la table des packs
/// (un acteur qui part la fera republier quand il aura quitté la scène).
pub open spec fn pas_roster(s: EtatVue, p: Seq<Seq<char>>, v: Seq<Seq<char>>, sans_animation: bool) -> (
    EtatVue,
    Seq<ActionBoucleVue>,
) {
    let r = plan(p, v);
    (
        EtatVue { a_declarer: s.a_declarer || plan_change_les_acteurs(r, sans_animation), ..s },
        r.map_values(|a: ActionVue| action_du_plan(a, sans_animation)),
    )
}

// ── Les fenêtres d'écran ────────────────────────────────────────────────

/// L'index de la première fenêtre de cet écran, ou -1.
pub open spec fn position(e: Seq<EcranVue>, id: u64) -> int
    decreases e.len(),
{
    if e.len() == 0 {
        -1
    } else {
        let p = position(e.drop_last(), id);
        if p >= 0 {
            p
        } else if e.last().id == id {
            e.len() - 1
        } else {
            -1
        }
    }
}

/// Un écran porte-t-il au moins un sprite à cette image ?
pub open spec fn occupe(c: Seq<(u64, Seq<char>)>, id: u64) -> bool {
    exists|k: int| 0 <= k < c.len() && (#[trigger] c[k]).0 == id
}

/// Ce que devient une fenêtre à l'instant `t` : occupée, elle n'est plus
/// vide ; vide pour la première fois, elle le note ; vide depuis le délai de
/// grâce, elle se ferme.
pub open spec fn trier_vides(e: Seq<EcranVue>, c: Seq<(u64, Seq<char>)>, t: u64) -> (
    Seq<EcranVue>,
    Seq<ActionBoucleVue>,
)
    decreases e.len(),
{
    if e.len() == 0 {
        (Seq::empty(), Seq::empty())
    } else {
        let (r, a) = trier_vides(e.drop_last(), c, t);
        let x = e.last();
        if occupe(c, x.id) {
            (r.push(EcranVue { vide_depuis: None, ..x }), a)
        } else {
            match x.vide_depuis {
                None => (r.push(EcranVue { vide_depuis: Some(t), ..x }), a),
                Some(d) => if ecoule(t, d, GRACE_ECRAN_VIDE_MS) {
                    (r, a.push(ActionBoucleVue::FermerEcran(x.id)))
                } else {
                    (r.push(x), a)
                },
            }
        }
    }
}

/// Une fenêtre neuve pour cet écran, en amorçage.
pub open spec fn ecran_neuf(id: u64, t: u64) -> EcranVue {
    EcranVue {
        id,
        vide_depuis: None,
        amorce_jusqu_a: plus_borne(t, AMORCAGE_MS),
        derniere: None,
        traverse: None,
    }
}

/// Ouvrir une fenêtre pour chaque écran chargé qui n'en a pas.
pub open spec fn ouvrir_ecrans(e: Seq<EcranVue>, c: Seq<(u64, Seq<char>)>, t: u64) -> (
    Seq<EcranVue>,
    Seq<ActionBoucleVue>,
)
    decreases c.len(),
{
    if c.len() == 0 {
        (e, Seq::empty())
    } else {
        let (r, a) = ouvrir_ecrans(e, c.drop_last(), t);
        let x = c.last();
        if position(r, x.0) >= 0 {
            (r, a)
        } else {
            (r.push(ecran_neuf(x.0, t)), a.push(ActionBoucleVue::OuvrirEcran(x.0)))
        }
    }
}

/// Une fenêtre au moins est-elle en amorçage à l'instant `t` ?
pub open spec fn en_amorcage(e: Seq<EcranVue>, t: u64) -> bool {
    exists|k: int| 0 <= k < e.len() && t < (#[trigger] e[k]).amorce_jusqu_a
}

/// La fenêtre, sa dernière charge oubliée.
pub open spec fn oubliee(x: EcranVue) -> EcranVue {
    EcranVue { derniere: None, ..x }
}

/// Republier la table des packs quand les acteurs ont changé ou qu'une
/// fenêtre est en amorçage ; chaque fenêtre oublie alors sa dernière charge,
/// pour que la suivante parte quoi qu'il arrive.
pub open spec fn declarer(e: Seq<EcranVue>, t: u64, demande: bool) -> (
    Seq<EcranVue>,
    Seq<ActionBoucleVue>,
) {
    if (demande || en_amorcage(e, t)) && e.len() > 0 {
        (e.map_values(|x: EcranVue| oubliee(x)), seq![ActionBoucleVue::Declarer])
    } else {
        (e, Seq::empty())
    }
}

/// Envoyer à chaque écran sa charge, sauf si c'est celle qu'il a déjà reçue
/// et qu'il n'est plus en amorçage.
pub open spec fn envoyer(e: Seq<EcranVue>, c: Seq<(u64, Seq<char>)>, t: u64) -> (
    Seq<EcranVue>,
    Seq<ActionBoucleVue>,
)
    decreases c.len(),
{
    if c.len() == 0 {
        (e, Seq::empty())
    } else {
        let (r, a) = envoyer(e, c.drop_last(), t);
        let x = c.last();
        let k = position(r, x.0);
        if k < 0 {
            (r, a)
        } else if t < r[k].amorce_jusqu_a || r[k].derniere != Some(x.1) {
            (
                r.update(k, EcranVue { derniere: Some(x.1), ..r[k] }),
                a.push(ActionBoucleVue::Envoyer { ecran: x.0, js: x.1 }),
            )
        } else {
            (r, a)
        }
    }
}

/// Une image : trier les fenêtres vides, ouvrir celles qui manquent,
/// republier la table s'il le faut, puis, au plus tous les 66 ms, envoyer
/// les charges qui ont changé.
pub open spec fn pas_image(s: EtatVue, t: u64, c: Seq<(u64, Seq<char>)>) -> (
    EtatVue,
    Seq<ActionBoucleVue>,
) {
    let (e1, a1) = trier_vides(s.ecrans, c, t);
    let (e2, a2) = ouvrir_ecrans(e1, c, t);
    let (e3, a3) = declarer(e2, t, s.a_declarer || a2.len() > 0);
    if t >= s.prochain_envoi {
        let (e4, a4) = envoyer(e3, c, t);
        (
            EtatVue {
                ecrans: e4,
                a_declarer: false,
                prochain_envoi: plus_borne(t, PERIODE_ENVOI_MS),
                ..s
            },
            a1 + a2 + a3 + a4,
        )
    } else {
        (EtatVue { ecrans: e3, a_declarer: false, ..s }, a1 + a2 + a3)
    }
}

/// La fenêtre de cet écran n'a pas pu être créée : l'oublier, pour
/// réessayer à l'image suivante.
pub open spec fn sans_ecran(e: Seq<EcranVue>, id: u64) -> Seq<EcranVue>
    decreases e.len(),
{
    if e.len() == 0 {
        e
    } else if e.last().id == id {
        sans_ecran(e.drop_last(), id)
    } else {
        sans_ecran(e.drop_last(), id).push(e.last())
    }
}

/// L'envoi à cet écran a échoué : oublier sa dernière charge, pour la
/// renvoyer.
pub open spec fn envoi_perdu(e: Seq<EcranVue>, id: u64) -> Seq<EcranVue> {
    e.map_values(|x: EcranVue| if x.id == id { oubliee(x) } else { x })
}

/// Ce que doit faire la fenêtre de cet écran : laisser passer les clics,
/// sauf si c'est elle qui porte le personnage sous le curseur.
pub open spec fn doit_traverser(id: u64, absorbant: Option<u64>) -> bool {
    absorbant != Some(id)
}

/// Régler les clics de chaque fenêtre, mais seulement là où le réglage
/// change.
pub open spec fn regler_clics(e: Seq<EcranVue>, absorbant: Option<u64>) -> (
    Seq<EcranVue>,
    Seq<ActionBoucleVue>,
)
    decreases e.len(),
{
    if e.len() == 0 {
        (Seq::empty(), Seq::empty())
    } else {
        let (r, a) = regler_clics(e.drop_last(), absorbant);
        let x = e.last();
        let v = doit_traverser(x.id, absorbant);
        if x.traverse == Some(v) {
            (r.push(x), a)
        } else {
            (
                r.push(EcranVue { traverse: Some(v), ..x }),
                a.push(ActionBoucleVue::TraverserClics { ecran: x.id, traverser: v }),
            )
        }
    }
}

/// Le réglage des clics de cet écran a échoué : l'oublier, pour le refaire.
pub open spec fn traversee_perdue(e: Seq<EcranVue>, id: u64) -> Seq<EcranVue> {
    e.map_values(|x: EcranVue| if x.id == id { EcranVue { traverse: None, ..x } } else { x })
}

/// Un pas de la boucle : le nouvel état, et les actions à accomplir.
pub open spec fn pas(s: EtatVue, ev: EvenementVue) -> (EtatVue, Seq<ActionBoucleVue>) {
    match ev {
        EvenementVue::Tick { maintenant } => pas_tick(s, maintenant),
        EvenementVue::Signaux { verrouillee, visible_voulu } => pas_signaux(s, verrouillee, visible_voulu),
        EvenementVue::Souris { droit_enfonce, sous_le_curseur } => pas_souris(s, droit_enfonce, sous_le_curseur),
        EvenementVue::Commande { commande } => pas_commande(s, commande),
        EvenementVue::Roster { presents, voulus, sans_animation } => pas_roster(s, presents, voulus, sans_animation),
        EvenementVue::ActeurRetire => (EtatVue { a_declarer: true, ..s }, Seq::empty()),
        EvenementVue::Image { maintenant, charges } => pas_image(s, maintenant, charges),
        EvenementVue::EcranRefuse { ecran } => (EtatVue { ecrans: sans_ecran(s.ecrans, ecran), ..s }, Seq::empty()),
        EvenementVue::EnvoiEchoue { ecran } => (EtatVue { ecrans: envoi_perdu(s.ecrans, ecran), ..s }, Seq::empty()),
        EvenementVue::Clics { ecran_absorbant } => {
            let (e, a) = regler_clics(s.ecrans, ecran_absorbant);
            (EtatVue { ecrans: e, ..s }, a)
        },
        EvenementVue::TraverseeEchouee { ecran } => (
            EtatVue { ecrans: traversee_perdue(s.ecrans, ecran), ..s },
            Seq::empty(),
        ),
    }
}

// ── Lemmes ──────────────────────────────────────────────────────────────

/// `position` rend la première fenêtre de cet écran, ou -1 s'il n'en a pas.
pub proof fn lemme_position(e: Seq<EcranVue>, id: u64)
    ensures
        -1 <= position(e, id) < e.len(),
        position(e, id) == -1 <==> forall|j: int| 0 <= j < e.len() ==> (#[trigger] e[j]).id != id,
        position(e, id) >= 0 ==> e[position(e, id)].id == id,
        forall|j: int| 0 <= j < position(e, id) ==> (#[trigger] e[j]).id != id,
    decreases e.len(),
{
    if e.len() > 0 {
        lemme_position(e.drop_last(), id);
        assert forall|j: int| 0 <= j < e.len() - 1 implies e[j] == e.drop_last()[j] by {}
    }
}

/// Les vues d'une suite de fenêtres suivent ses ajouts et ses mises à jour.
proof fn lemme_vues_ecrans(e: Seq<Ecran>, x: Ecran, k: int)
    ensures
        vues_ecrans(e.push(x)) =~= vues_ecrans(e).push(x@),
        0 <= k < e.len() ==> vues_ecrans(e.update(k, x)) =~= vues_ecrans(e).update(k, x@),
{
}

/// Les vues d'une suite d'actions suivent ses ajouts et ses concaténations.
proof fn lemme_vues_actions(a: Seq<ActionBoucle>, b: Seq<ActionBoucle>, x: ActionBoucle)
    ensures
        vues_actions(a.push(x)) =~= vues_actions(a).push(x@),
        vues_actions(a + b) =~= vues_actions(a) + vues_actions(b),
{
}

// ── Les fonctions exécutables ───────────────────────────────────────────

/// Une copie de la fenêtre.
fn copie(x: &Ecran) -> (y: Ecran)
    ensures
        y@ == x@,
{
    let derniere = match &x.derniere {
        Some(s) => Some(s.clone()),
        None => None,
    };
    Ecran { id: x.id, vide_depuis: x.vide_depuis, amorce_jusqu_a: x.amorce_jusqu_a, derniere, traverse: x.traverse }
}

/// L'index de la première fenêtre de cet écran.
fn chercher(e: &Vec<Ecran>, id: u64) -> (k: Option<usize>)
    ensures
        match k {
            Some(k) => position(vues_ecrans(e@), id) == k as int,
            None => position(vues_ecrans(e@), id) == -1,
        },
{
    let ghost v = vues_ecrans(e@);
    proof {
        lemme_position(v, id);
    }
    let mut i: usize = 0;
    while i < e.len()
        invariant
            i <= e@.len(),
            v == vues_ecrans(e@),
            forall|j: int| 0 <= j < i ==> (#[trigger] v[j]).id != id,
            -1 <= position(v, id) < v.len(),
            position(v, id) == -1 <==> forall|j: int| 0 <= j < v.len() ==> (#[trigger] v[j]).id != id,
            position(v, id) >= 0 ==> v[position(v, id)].id == id,
            forall|j: int| 0 <= j < position(v, id) ==> (#[trigger] v[j]).id != id,
        decreases e@.len() - i,
    {
        if e[i].id == id {
            assert(v[i as int].id == id);
            return Some(i);
        }
        assert(v[i as int].id != id);
        i = i + 1;
    }
    None
}

/// Cet écran porte-t-il un sprite à cette image ?
fn est_occupe(c: &Vec<(u64, String)>, id: u64) -> (r: bool)
    ensures
        r == occupe(vues_charges(c@), id),
{
    let ghost v = vues_charges(c@);
    let mut i: usize = 0;
    while i < c.len()
        invariant
            i <= c@.len(),
            v == vues_charges(c@),
            forall|j: int| 0 <= j < i ==> (#[trigger] v[j]).0 != id,
        decreases c@.len() - i,
    {
        if c[i].0 == id {
            assert(v[i as int].0 == id);
            return true;
        }
        i = i + 1;
    }
    false
}

/// Trier les fenêtres vides : voir `trier_vides`.
fn trier_vides_exec(e: &Vec<Ecran>, c: &Vec<(u64, String)>, t: u64) -> (r: (Vec<Ecran>, Vec<ActionBoucle>))
    requires
        ids_distincts(vues_ecrans(e@)),
    ensures
        (vues_ecrans(r.0@), vues_actions(r.1@)) == trier_vides(vues_ecrans(e@), vues_charges(c@), t),
        ids_distincts(vues_ecrans(r.0@)),
{
    let ghost ev = vues_ecrans(e@);
    let ghost cv = vues_charges(c@);
    let mut out: Vec<Ecran> = Vec::new();
    let mut acts: Vec<ActionBoucle> = Vec::new();
    let ghost mut idx: Seq<int> = Seq::empty();
    let mut i: usize = 0;
    while i < e.len()
        invariant
            i <= e@.len(),
            ev == vues_ecrans(e@),
            cv == vues_charges(c@),
            ids_distincts(ev),
            (vues_ecrans(out@), vues_actions(acts@)) == trier_vides(ev.take(i as int), cv, t),
            idx.len() == out@.len(),
            forall|j: int| 0 <= j < idx.len() ==> 0 <= #[trigger] idx[j] < i,
            forall|j: int|
                0 <= j < idx.len() ==> (#[trigger] vues_ecrans(out@)[j]).id == ev[idx[j]].id,
            forall|j1: int, j2: int| 0 <= j1 < j2 < idx.len() ==> #[trigger] idx[j1] < #[trigger] idx[j2],
        decreases e@.len() - i,
    {
        let ghost avant = vues_ecrans(out@);
        assert(ev.take(i + 1).drop_last() =~= ev.take(i as int));
        assert(ev.take(i + 1).last() == ev[i as int]);
        let x = &e[i];
        assert(ev[i as int] == x@);
        if est_occupe(c, x.id) {
            let mut y = copie(x);
            y.vide_depuis = None;
            proof { lemme_vues_ecrans(out@, y, 0); }
            out.push(y);
            proof { idx = idx.push(i as int); }
        } else {
            match x.vide_depuis {
                None => {
                    let mut y = copie(x);
                    y.vide_depuis = Some(t);
                    proof { lemme_vues_ecrans(out@, y, 0); }
                    out.push(y);
                    proof { idx = idx.push(i as int); }
                },
                Some(d) => {
                    if ecoule_exec(t, d, GRACE_ECRAN_VIDE_MS) {
                        let a = ActionBoucle::FermerEcran(x.id);
                        proof { lemme_vues_actions(acts@, acts@, a); }
                        acts.push(a);
                    } else {
                        let y = copie(x);
                        proof { lemme_vues_ecrans(out@, y, 0); }
                        out.push(y);
                        proof { idx = idx.push(i as int); }
                    }
                },
            }
        }
        proof {
            assert forall|j: int| 0 <= j < idx.len() implies (#[trigger] vues_ecrans(out@)[j]).id
                == ev[idx[j]].id by {
                if j < avant.len() {
                    assert(vues_ecrans(out@)[j] == avant[j]);
                }
            }
        }
        i = i + 1;
    }
    assert(ev.take(e@.len() as int) =~= ev);
    proof {
        let o = vues_ecrans(out@);
        assert forall|j1: int, j2: int| 0 <= j1 < j2 < o.len() implies (#[trigger] o[j1]).id
            != (#[trigger] o[j2]).id by {
            assert(idx[j1] < idx[j2]);
            assert(o[j1].id == ev[idx[j1]].id);
            assert(o[j2].id == ev[idx[j2]].id);
        }
    }
    (out, acts)
}

/// Ouvrir les fenêtres qui manquent : voir `ouvrir_ecrans`.
fn ouvrir_ecrans_exec(e: Vec<Ecran>, c: &Vec<(u64, String)>, t: u64) -> (r: (Vec<Ecran>, Vec<ActionBoucle>))
    requires
        ids_distincts(vues_ecrans(e@)),
    ensures
        (vues_ecrans(r.0@), vues_actions(r.1@)) == ouvrir_ecrans(vues_ecrans(e@), vues_charges(c@), t),
        ids_distincts(vues_ecrans(r.0@)),
{
    let ghost ev = vues_ecrans(e@);
    let ghost cv = vues_charges(c@);
    let mut out = e;
    let mut acts: Vec<ActionBoucle> = Vec::new();
    let mut i: usize = 0;
    while i < c.len()
        invariant
            i <= c@.len(),
            cv == vues_charges(c@),
            (vues_ecrans(out@), vues_actions(acts@)) == ouvrir_ecrans(ev, cv.take(i as int), t),
            ids_distincts(vues_ecrans(out@)),
        decreases c@.len() - i,
    {
        assert(cv.take(i + 1).drop_last() =~= cv.take(i as int));
        assert(cv.take(i + 1).last() == cv[i as int]);
        let id = c[i].0;
        match chercher(&out, id) {
            Some(_) => {},
            None => {
                let ghost avant = vues_ecrans(out@);
                proof { lemme_position(avant, id); }
                let y = Ecran {
                    id,
                    vide_depuis: None,
                    amorce_jusqu_a: plus_borne_exec(t, AMORCAGE_MS),
                    derniere: None,
                    traverse: None,
                };
                proof { lemme_vues_ecrans(out@, y, 0); }
                out.push(y);
                let a = ActionBoucle::OuvrirEcran(id);
                proof { lemme_vues_actions(acts@, acts@, a); }
                acts.push(a);
                proof {
                    let o = vues_ecrans(out@);
                    assert forall|j1: int, j2: int| 0 <= j1 < j2 < o.len() implies (#[trigger] o[j1]).id
                        != (#[trigger] o[j2]).id by {
                        if j2 == o.len() - 1 {
                            assert(o[j1] == avant[j1]);
                        } else {
                            assert(o[j1] == avant[j1]);
                            assert(o[j2] == avant[j2]);
                        }
                    }
                }
            },
        }
        i = i + 1;
    }
    assert(cv.take(c@.len() as int) =~= cv);
    (out, acts)
}

/// Une fenêtre au moins est-elle en amorçage ?
fn en_amorcage_exec(e: &Vec<Ecran>, t: u64) -> (r: bool)
    ensures
        r == en_amorcage(vues_ecrans(e@), t),
{
    let ghost ev = vues_ecrans(e@);
    let mut i: usize = 0;
    while i < e.len()
        invariant
            i <= e@.len(),
            ev == vues_ecrans(e@),
            forall|j: int| 0 <= j < i ==> !(t < (#[trigger] ev[j]).amorce_jusqu_a),
        decreases e@.len() - i,
    {
        if t < e[i].amorce_jusqu_a {
            assert(t < ev[i as int].amorce_jusqu_a);
            return true;
        }
        i = i + 1;
    }
    false
}

/// Republier la table s'il le faut : voir `declarer`.
fn declarer_exec(e: Vec<Ecran>, t: u64, demande: bool) -> (r: (Vec<Ecran>, Vec<ActionBoucle>))
    requires
        ids_distincts(vues_ecrans(e@)),
    ensures
        (vues_ecrans(r.0@), vues_actions(r.1@)) == declarer(vues_ecrans(e@), t, demande),
        ids_distincts(vues_ecrans(r.0@)),
{
    let ghost ev = vues_ecrans(e@);
    let amorce = en_amorcage_exec(&e, t);
    if (demande || amorce) && e.len() > 0 {
        let mut out: Vec<Ecran> = Vec::new();
        let mut i: usize = 0;
        while i < e.len()
            invariant
                i <= e@.len(),
                ev == vues_ecrans(e@),
                vues_ecrans(out@) =~= ev.take(i as int).map_values(|x: EcranVue| oubliee(x)),
            decreases e@.len() - i,
        {
            let mut y = copie(&e[i]);
            y.derniere = None;
            proof { lemme_vues_ecrans(out@, y, 0); }
            out.push(y);
            assert(ev.take(i + 1).map_values(|x: EcranVue| oubliee(x)) =~= ev.take(i as int).map_values(
                |x: EcranVue| oubliee(x),
            ).push(oubliee(ev[i as int])));
            i = i + 1;
        }
        assert(ev.take(e@.len() as int) =~= ev);
        let mut acts: Vec<ActionBoucle> = Vec::new();
        proof { lemme_vues_actions(acts@, acts@, ActionBoucle::Declarer); }
        acts.push(ActionBoucle::Declarer);
        assert(vues_actions(acts@) =~= seq![ActionBoucleVue::Declarer]);
        proof {
            let o = vues_ecrans(out@);
            assert forall|j1: int, j2: int| 0 <= j1 < j2 < o.len() implies (#[trigger] o[j1]).id
                != (#[trigger] o[j2]).id by {
                assert(o[j1].id == ev[j1].id);
                assert(o[j2].id == ev[j2].id);
            }
        }
        (out, acts)
    } else {
        let acts: Vec<ActionBoucle> = Vec::new();
        assert(vues_actions(acts@) =~= Seq::<ActionBoucleVue>::empty());
        (e, acts)
    }
}

/// Envoyer les charges qui ont changé : voir `envoyer`.
fn envoyer_exec(e: Vec<Ecran>, c: &Vec<(u64, String)>, t: u64) -> (r: (Vec<Ecran>, Vec<ActionBoucle>))
    requires
        ids_distincts(vues_ecrans(e@)),
    ensures
        (vues_ecrans(r.0@), vues_actions(r.1@)) == envoyer(vues_ecrans(e@), vues_charges(c@), t),
        ids_distincts(vues_ecrans(r.0@)),
{
    let ghost ev = vues_ecrans(e@);
    let ghost cv = vues_charges(c@);
    let mut out = e;
    let mut acts: Vec<ActionBoucle> = Vec::new();
    let mut i: usize = 0;
    while i < c.len()
        invariant
            i <= c@.len(),
            cv == vues_charges(c@),
            (vues_ecrans(out@), vues_actions(acts@)) == envoyer(ev, cv.take(i as int), t),
            ids_distincts(vues_ecrans(out@)),
        decreases c@.len() - i,
    {
        assert(cv.take(i + 1).drop_last() =~= cv.take(i as int));
        assert(cv.take(i + 1).last() == cv[i as int]);
        let id = c[i].0;
        let ghost avant = vues_ecrans(out@);
        match chercher(&out, id) {
            None => {},
            Some(k) => {
                proof { lemme_position(avant, id); }
                let neuve = match &out[k].derniere {
                    Some(d) => !egal(d.as_str(), c[i].1.as_str()),
                    None => true,
                };
                if t < out[k].amorce_jusqu_a || neuve {
                    let mut y = copie(&out[k]);
                    y.derniere = Some(c[i].1.clone());
                    proof { lemme_vues_ecrans(out@, y, k as int); }
                    out.set(k, y);
                    let a = ActionBoucle::Envoyer { ecran: id, js: c[i].1.clone() };
                    proof { lemme_vues_actions(acts@, acts@, a); }
                    acts.push(a);
                    proof {
                        let o = vues_ecrans(out@);
                        assert forall|j1: int, j2: int| 0 <= j1 < j2 < o.len() implies (#[trigger] o[j1]).id
                            != (#[trigger] o[j2]).id by {
                            assert(o[j1].id == avant[j1].id);
                            assert(o[j2].id == avant[j2].id);
                        }
                    }
                }
            },
        }
        i = i + 1;
    }
    assert(cv.take(c@.len() as int) =~= cv);
    (out, acts)
}

/// Oublier la fenêtre de cet écran : voir `sans_ecran`.
fn sans_ecran_exec(e: &Vec<Ecran>, id: u64) -> (r: Vec<Ecran>)
    requires
        ids_distincts(vues_ecrans(e@)),
    ensures
        vues_ecrans(r@) == sans_ecran(vues_ecrans(e@), id),
        ids_distincts(vues_ecrans(r@)),
{
    let ghost ev = vues_ecrans(e@);
    let mut out: Vec<Ecran> = Vec::new();
    let ghost mut idx: Seq<int> = Seq::empty();
    let mut i: usize = 0;
    while i < e.len()
        invariant
            i <= e@.len(),
            ev == vues_ecrans(e@),
            ids_distincts(ev),
            vues_ecrans(out@) == sans_ecran(ev.take(i as int), id),
            idx.len() == out@.len(),
            forall|j: int| 0 <= j < idx.len() ==> 0 <= #[trigger] idx[j] < i,
            forall|j: int|
                0 <= j < idx.len() ==> (#[trigger] vues_ecrans(out@)[j]).id == ev[idx[j]].id,
            forall|j1: int, j2: int| 0 <= j1 < j2 < idx.len() ==> #[trigger] idx[j1] < #[trigger] idx[j2],
        decreases e@.len() - i,
    {
        let ghost avant = vues_ecrans(out@);
        assert(ev.take(i + 1).drop_last() =~= ev.take(i as int));
        assert(ev.take(i + 1).last() == ev[i as int]);
        if e[i].id != id {
            let y = copie(&e[i]);
            proof { lemme_vues_ecrans(out@, y, 0); }
            out.push(y);
            proof {
                idx = idx.push(i as int);
                assert forall|j: int| 0 <= j < idx.len() implies (#[trigger] vues_ecrans(out@)[j]).id
                    == ev[idx[j]].id by {
                    if j < avant.len() {
                        assert(vues_ecrans(out@)[j] == avant[j]);
                    }
                }
            }
        }
        i = i + 1;
    }
    assert(ev.take(e@.len() as int) =~= ev);
    proof {
        let o = vues_ecrans(out@);
        assert forall|j1: int, j2: int| 0 <= j1 < j2 < o.len() implies (#[trigger] o[j1]).id
            != (#[trigger] o[j2]).id by {
            assert(idx[j1] < idx[j2]);
        }
    }
    out
}

/// Oublier la dernière charge de cet écran : voir `envoi_perdu`.
fn envoi_perdu_exec(e: &Vec<Ecran>, id: u64) -> (r: Vec<Ecran>)
    requires
        ids_distincts(vues_ecrans(e@)),
    ensures
        vues_ecrans(r@) == envoi_perdu(vues_ecrans(e@), id),
        ids_distincts(vues_ecrans(r@)),
{
    let ghost ev = vues_ecrans(e@);
    let mut out: Vec<Ecran> = Vec::new();
    let mut i: usize = 0;
    while i < e.len()
        invariant
            i <= e@.len(),
            ev == vues_ecrans(e@),
            vues_ecrans(out@) =~= ev.take(i as int).map_values(
                |x: EcranVue| if x.id == id { oubliee(x) } else { x },
            ),
        decreases e@.len() - i,
    {
        let mut y = copie(&e[i]);
        if y.id == id {
            y.derniere = None;
        }
        proof { lemme_vues_ecrans(out@, y, 0); }
        out.push(y);
        assert(ev.take(i + 1).map_values(|x: EcranVue| if x.id == id { oubliee(x) } else { x })
            =~= ev.take(i as int).map_values(|x: EcranVue| if x.id == id { oubliee(x) } else { x }).push(
            if ev[i as int].id == id { oubliee(ev[i as int]) } else { ev[i as int] },
        ));
        i = i + 1;
    }
    assert(ev.take(e@.len() as int) =~= ev);
    proof {
        let o = vues_ecrans(out@);
        assert forall|j1: int, j2: int| 0 <= j1 < j2 < o.len() implies (#[trigger] o[j1]).id
            != (#[trigger] o[j2]).id by {
            assert(o[j1].id == ev[j1].id);
            assert(o[j2].id == ev[j2].id);
        }
    }
    out
}

/// Régler les clics des fenêtres : voir `regler_clics`.
fn regler_clics_exec(e: &Vec<Ecran>, absorbant: Option<u64>) -> (r: (Vec<Ecran>, Vec<ActionBoucle>))
    requires
        ids_distincts(vues_ecrans(e@)),
    ensures
        (vues_ecrans(r.0@), vues_actions(r.1@)) == regler_clics(vues_ecrans(e@), absorbant),
        ids_distincts(vues_ecrans(r.0@)),
{
    let ghost ev = vues_ecrans(e@);
    let mut out: Vec<Ecran> = Vec::new();
    let mut acts: Vec<ActionBoucle> = Vec::new();
    let mut i: usize = 0;
    while i < e.len()
        invariant
            i <= e@.len(),
            ev == vues_ecrans(e@),
            (vues_ecrans(out@), vues_actions(acts@)) == regler_clics(ev.take(i as int), absorbant),
            out@.len() == i,
            forall|j: int| 0 <= j < i ==> (#[trigger] vues_ecrans(out@)[j]).id == ev[j].id,
        decreases e@.len() - i,
    {
        let ghost avant = vues_ecrans(out@);
        assert(ev.take(i + 1).drop_last() =~= ev.take(i as int));
        assert(ev.take(i + 1).last() == ev[i as int]);
        let x = &e[i];
        let v = match absorbant {
            Some(a) => a != x.id,
            None => true,
        };
        let mut y = copie(x);
        let deja = match x.traverse {
            Some(t) => t == v,
            None => false,
        };
        if !deja {
            y.traverse = Some(v);
            let a = ActionBoucle::TraverserClics { ecran: x.id, traverser: v };
            proof { lemme_vues_actions(acts@, acts@, a); }
            acts.push(a);
        }
        proof { lemme_vues_ecrans(out@, y, 0); }
        out.push(y);
        proof {
            assert forall|j: int| 0 <= j < i + 1 implies (#[trigger] vues_ecrans(out@)[j]).id == ev[j].id by {
                if j < i {
                    assert(vues_ecrans(out@)[j] == avant[j]);
                }
            }
        }
        i = i + 1;
    }
    assert(ev.take(e@.len() as int) =~= ev);
    proof {
        let o = vues_ecrans(out@);
        assert forall|j1: int, j2: int| 0 <= j1 < j2 < o.len() implies (#[trigger] o[j1]).id
            != (#[trigger] o[j2]).id by {
            assert(o[j1].id == ev[j1].id);
            assert(o[j2].id == ev[j2].id);
        }
    }
    (out, acts)
}

/// Oublier le réglage des clics de cet écran : voir `traversee_perdue`.
fn traversee_perdue_exec(e: &Vec<Ecran>, id: u64) -> (r: Vec<Ecran>)
    requires
        ids_distincts(vues_ecrans(e@)),
    ensures
        vues_ecrans(r@) == traversee_perdue(vues_ecrans(e@), id),
        ids_distincts(vues_ecrans(r@)),
{
    let ghost ev = vues_ecrans(e@);
    let mut out: Vec<Ecran> = Vec::new();
    let mut i: usize = 0;
    while i < e.len()
        invariant
            i <= e@.len(),
            ev == vues_ecrans(e@),
            vues_ecrans(out@) =~= ev.take(i as int).map_values(
                |x: EcranVue| if x.id == id { EcranVue { traverse: None, ..x } } else { x },
            ),
        decreases e@.len() - i,
    {
        let mut y = copie(&e[i]);
        if y.id == id {
            y.traverse = None;
        }
        proof { lemme_vues_ecrans(out@, y, 0); }
        out.push(y);
        assert(ev.take(i + 1).map_values(|x: EcranVue| if x.id == id { EcranVue { traverse: None, ..x } } else { x })
            =~= ev.take(i as int).map_values(
            |x: EcranVue| if x.id == id { EcranVue { traverse: None, ..x } } else { x },
        ).push(if ev[i as int].id == id { EcranVue { traverse: None, ..ev[i as int] } } else { ev[i as int] }));
        i = i + 1;
    }
    assert(ev.take(e@.len() as int) =~= ev);
    proof {
        let o = vues_ecrans(out@);
        assert forall|j1: int, j2: int| 0 <= j1 < j2 < o.len() implies (#[trigger] o[j1]).id
            != (#[trigger] o[j2]).id by {
            assert(o[j1].id == ev[j1].id);
            assert(o[j2].id == ev[j2].id);
        }
    }
    out
}

/// Le plan que rend `reconcilier` est le plan.
proof fn lemme_plan(p: Seq<Seq<char>>, v: Seq<Seq<char>>, r: Seq<ActionVue>)
    requires
        plan_conforme(p, v, r),
    ensures
        plan(p, v) == r,
{
    let q = plan(p, v);
    assert(plan_conforme(p, v, q));
    loi_l_ordre_des_listes_est_indifferent(p, v, r, p, v, q);
}

/// Un pas de la boucle : l'état avance selon l'événement, et les actions à
/// accomplir sont rendues dans l'ordre où les accomplir.
pub fn pas_de_boucle(etat: &mut EtatBoucle, ev: Evenement) -> (a: Vec<ActionBoucle>)
    requires
        old(etat).bien_forme(),
    ensures
        final(etat).bien_forme(),
        (final(etat)@, vues_actions(a@)) == pas(old(etat)@, ev@),
{
    let ghost s = etat@;
    let ghost evv = ev@;
    let mut acts: Vec<ActionBoucle> = Vec::new();
    match ev {
        Evenement::Tick { maintenant } => {
            if ecoule_exec(maintenant, etat.dernier_signal, PERIODE_SIGNAUX_MS) {
                etat.dernier_signal = maintenant;
                proof { lemme_vues_actions(acts@, acts@, ActionBoucle::LireSignaux); }
                acts.push(ActionBoucle::LireSignaux);
            }
            if ecoule_exec(maintenant, etat.dernier_recensement, PERIODE_MONDE_MS) {
                etat.dernier_recensement = maintenant;
                proof { lemme_vues_actions(acts@, acts@, ActionBoucle::Recenser); }
                acts.push(ActionBoucle::Recenser);
            }
            assert(vues_actions(acts@) =~= pas_tick(s, maintenant).1);
        },
        Evenement::Signaux { verrouillee, visible_voulu } => {
            if verrouillee != etat.verrouille {
                etat.verrouille = verrouillee;
                if verrouillee {
                    proof { lemme_vues_actions(acts@, acts@, ActionBoucle::Visibilite(false)); }
                    acts.push(ActionBoucle::Visibilite(false));
                } else {
                    proof { lemme_vues_actions(acts@, acts@, ActionBoucle::Reveiller); }
                    acts.push(ActionBoucle::Reveiller);
                    proof { lemme_vues_actions(acts@, acts@, ActionBoucle::Visibilite(visible_voulu)); }
                    acts.push(ActionBoucle::Visibilite(visible_voulu));
                }
            }
            assert(vues_actions(acts@) =~= pas_signaux(s, verrouillee, visible_voulu).1);
        },
        Evenement::Souris { droit_enfonce, sous_le_curseur } => {
            let front = etat.bouton_droit && !droit_enfonce;
            etat.bouton_droit = droit_enfonce;
            if front {
                match sous_le_curseur {
                    Some(sujet) => {
                        let l = lignes(sujet.jouables.as_slice(), sujet.ou, sujet.tenue, sujet.presents.as_slice());
                        etat.demandeur = Some(sujet.id);
                        let x = ActionBoucle::OuvrirMenu { acteur: sujet.id, lignes: l };
                        proof { lemme_vues_actions(acts@, acts@, x); }
                        acts.push(x);
                    },
                    None => {},
                }
            }
            assert(vues_actions(acts@) =~= pas_souris(s, droit_enfonce, evv->Souris_sous_le_curseur).1);
        },
        Evenement::Commande { commande } => {
            match etat.demandeur {
                Some(id) => {
                    etat.demandeur = None;
                    let x = ActionBoucle::Commander { acteur: id, commande };
                    proof { lemme_vues_actions(acts@, acts@, x); }
                    acts.push(x);
                },
                None => {},
            }
            assert(vues_actions(acts@) =~= pas_commande(s, commande).1);
        },
        Evenement::Roster { presents, voulus, sans_animation } => {
            let mut r = reconcilier(presents.as_slice(), voulus.as_slice());
            let ghost rv = vues(r@);
            proof { lemme_plan(noms(presents@), noms(voulus@), rv); }
            let mut cree = false;
            let n = r.len();
            assert(rv.len() == n);
            let mut i: usize = 0;
            while r.len() > 0
                invariant
                    i + r@.len() == rv.len(),
                    rv.len() == n,
                    vues(r@) =~= rv.skip(i as int),
                    vues_actions(acts@) =~= rv.take(i as int).map_values(
                        |a: ActionVue| action_du_plan(a, sans_animation),
                    ),
                    cree == exists|k: int| 0 <= k < i && change_les_acteurs(#[trigger] rv[k], sans_animation),
                decreases r@.len(),
            {
                let ghost avant = r@;
                let x = r.remove(0);
                assert(vues(avant)[0] == rv.skip(i as int)[0]);
                assert(vues(r@) =~= vues(avant).skip(1));
                assert(x@ == rv[i as int]);
                let c = match &x {
                    ActionRoster::Creer(_) => true,
                    ActionRoster::RetirerUn(_) => sans_animation,
                };
                let y = match x {
                    ActionRoster::Creer(n) => ActionBoucle::Roster(ActionRoster::Creer(n)),
                    ActionRoster::RetirerUn(n) => if sans_animation {
                        ActionBoucle::Roster(ActionRoster::RetirerUn(n))
                    } else {
                        ActionBoucle::Partir(n)
                    },
                };
                assert(y@ == action_du_plan(rv[i as int], sans_animation));
                proof { lemme_vues_actions(acts@, acts@, y); }
                acts.push(y);
                cree = cree || c;
                assert(rv.take(i + 1).map_values(|a: ActionVue| action_du_plan(a, sans_animation)) =~= rv.take(
                    i as int,
                ).map_values(|a: ActionVue| action_du_plan(a, sans_animation)).push(
                    action_du_plan(rv[i as int], sans_animation),
                ));
                proof {
                    if c {
                        assert(change_les_acteurs(rv[i as int], sans_animation));
                    }
                    if cree && !c {
                        let k = choose|k: int| 0 <= k < i && change_les_acteurs(#[trigger] rv[k], sans_animation);
                        assert(0 <= k < i + 1 && change_les_acteurs(rv[k], sans_animation));
                    }
                    if !cree {
                        assert forall|k: int| 0 <= k < i + 1 implies !change_les_acteurs(#[trigger] rv[k], sans_animation) by {
                            if k == i {} else {}
                        }
                    }
                }
                i = i + 1;
            }
            assert(rv.take(i as int) =~= rv);
            etat.a_declarer = etat.a_declarer || cree;
        },
        Evenement::ActeurRetire => {
            etat.a_declarer = true;
            assert(vues_actions(acts@) =~= Seq::<ActionBoucleVue>::empty());
        },
        Evenement::Image { maintenant, charges } => {
            let mut e: Vec<Ecran> = Vec::new();
            std::mem::swap(&mut e, &mut etat.ecrans);
            let (e1, a1) = trier_vides_exec(&e, &charges, maintenant);
            let (e2, a2) = ouvrir_ecrans_exec(e1, &charges, maintenant);
            let demande = etat.a_declarer || a2.len() > 0;
            assert(vues_actions(a2@).len() == a2@.len());
            let (e3, a3) = declarer_exec(e2, maintenant, demande);
            let mut a1 = a1;
            let mut a2 = a2;
            let mut a3 = a3;
            let ghost v1 = a1@;
            let ghost v2 = a2@;
            let ghost v3 = a3@;
            acts.append(&mut a1);
            acts.append(&mut a2);
            acts.append(&mut a3);
            proof {
                lemme_vues_actions(v1, v2, ActionBoucle::Declarer);
                lemme_vues_actions(v1 + v2, v3, ActionBoucle::Declarer);
                assert(acts@ =~= v1 + v2 + v3);
            }
            etat.a_declarer = false;
            if maintenant >= etat.prochain_envoi {
                let (e4, a4) = envoyer_exec(e3, &charges, maintenant);
                let mut a4 = a4;
                let ghost v4 = a4@;
                let ghost avant = acts@;
                acts.append(&mut a4);
                proof {
                    lemme_vues_actions(avant, v4, ActionBoucle::Declarer);
                }
                etat.ecrans = e4;
                etat.prochain_envoi = plus_borne_exec(maintenant, PERIODE_ENVOI_MS);
            } else {
                etat.ecrans = e3;
            }
        },
        Evenement::EcranRefuse { ecran } => {
            etat.ecrans = sans_ecran_exec(&etat.ecrans, ecran);
            assert(vues_actions(acts@) =~= Seq::<ActionBoucleVue>::empty());
        },
        Evenement::EnvoiEchoue { ecran } => {
            etat.ecrans = envoi_perdu_exec(&etat.ecrans, ecran);
            assert(vues_actions(acts@) =~= Seq::<ActionBoucleVue>::empty());
        },
        Evenement::Clics { ecran_absorbant } => {
            let (e, a) = regler_clics_exec(&etat.ecrans, ecran_absorbant);
            etat.ecrans = e;
            acts = a;
        },
        Evenement::TraverseeEchouee { ecran } => {
            etat.ecrans = traversee_perdue_exec(&etat.ecrans, ecran);
            assert(vues_actions(acts@) =~= Seq::<ActionBoucleVue>::empty());
        },
    }
    acts
}

// ── Les lois ────────────────────────────────────────────────────────────

/// Ce que rend `trier_vides` : des fermetures, chacune d'une fenêtre vide
/// depuis le délai de grâce et qui ne porte toujours aucun sprite.
proof fn lemme_trier_vides(e: Seq<EcranVue>, c: Seq<(u64, Seq<char>)>, t: u64)
    ensures
        forall|i: int| 0 <= i < trier_vides(e, c, t).1.len() ==> {
            let x = #[trigger] trier_vides(e, c, t).1[i];
            &&& x is FermerEcran
            &&& exists|k: int| {
                &&& 0 <= k < e.len()
                &&& (#[trigger] e[k]).id == x->FermerEcran_0
                &&& e[k].vide_depuis is Some
                &&& ecoule(t, e[k].vide_depuis->0, GRACE_ECRAN_VIDE_MS)
            }
            &&& !occupe(c, x->FermerEcran_0)
        },
    decreases e.len(),
{
    if e.len() > 0 {
        lemme_trier_vides(e.drop_last(), c, t);
        let (r, a) = trier_vides(e.drop_last(), c, t);
        assert forall|i: int| 0 <= i < trier_vides(e, c, t).1.len() implies {
            let x = #[trigger] trier_vides(e, c, t).1[i];
            &&& x is FermerEcran
            &&& exists|k: int| {
                &&& 0 <= k < e.len()
                &&& (#[trigger] e[k]).id == x->FermerEcran_0
                &&& e[k].vide_depuis is Some
                &&& ecoule(t, e[k].vide_depuis->0, GRACE_ECRAN_VIDE_MS)
            }
            &&& !occupe(c, x->FermerEcran_0)
        } by {
            let x = trier_vides(e, c, t).1[i];
            if i < a.len() {
                assert(x == a[i]);
                let k = choose|k: int| {
                    &&& 0 <= k < e.drop_last().len()
                    &&& (#[trigger] e.drop_last()[k]).id == x->FermerEcran_0
                    &&& e.drop_last()[k].vide_depuis is Some
                    &&& ecoule(t, e.drop_last()[k].vide_depuis->0, GRACE_ECRAN_VIDE_MS)
                };
                assert(e[k] == e.drop_last()[k]);
            } else {
                let k = e.len() - 1;
                assert(e[k] == e.last());
            }
        }
    }
}

/// Ce que rend `ouvrir_ecrans` : des ouvertures, et rien d'autre.
proof fn lemme_ouvrir_ecrans(e: Seq<EcranVue>, c: Seq<(u64, Seq<char>)>, t: u64)
    ensures
        forall|i: int| 0 <= i < ouvrir_ecrans(e, c, t).1.len() ==> (#[trigger] ouvrir_ecrans(e, c, t).1[i]) is OuvrirEcran,
    decreases c.len(),
{
    if c.len() > 0 {
        lemme_ouvrir_ecrans(e, c.drop_last(), t);
    }
}

/// `position` ne dépend que des identifiants.
proof fn lemme_position_ids(a: Seq<EcranVue>, b: Seq<EcranVue>, id: u64)
    requires
        a.len() == b.len(),
        forall|j: int| 0 <= j < a.len() ==> (#[trigger] a[j]).id == b[j].id,
    ensures
        position(a, id) == position(b, id),
    decreases a.len(),
{
    if a.len() > 0 {
        lemme_position_ids(a.drop_last(), b.drop_last(), id);
    }
}

/// Les charges d'une image vont chacune à un écran différent.
pub open spec fn charges_distinctes(c: Seq<(u64, Seq<char>)>) -> bool {
    forall|i: int, j: int| 0 <= i < j < c.len() ==> (#[trigger] c[i]).0 != (#[trigger] c[j]).0
}

/// Ce que rend `envoyer`, quand chaque écran reçoit au plus une charge :
/// les fenêtres gardent leur place et leur écran, celles qui ne reçoivent
/// rien restent telles quelles, et chaque envoi porte la charge d'un écran
/// en amorçage ou différente de la dernière qu'il a reçue.
proof fn lemme_envoyer(e: Seq<EcranVue>, c: Seq<(u64, Seq<char>)>, t: u64)
    requires
        charges_distinctes(c),
    ensures
        envoyer(e, c, t).0.len() == e.len(),
        forall|j: int| 0 <= j < e.len() ==> (#[trigger] envoyer(e, c, t).0[j]).id == e[j].id,
        forall|j: int| 0 <= j < e.len() && !occupe(c, e[j].id) ==> #[trigger] envoyer(e, c, t).0[j] == e[j],
        forall|i: int| 0 <= i < envoyer(e, c, t).1.len() ==> {
            let x = #[trigger] envoyer(e, c, t).1[i];
            &&& x is Envoyer
            &&& occupe(c, x->Envoyer_ecran)
            &&& position(e, x->Envoyer_ecran) >= 0
            &&& (t < e[position(e, x->Envoyer_ecran)].amorce_jusqu_a
                || e[position(e, x->Envoyer_ecran)].derniere != Some(x->Envoyer_js))
        },
    decreases c.len(),
{
    if c.len() > 0 {
        let c0 = c.drop_last();
        assert(charges_distinctes(c0)) by {
            assert forall|i: int, j: int| 0 <= i < j < c0.len() implies (#[trigger] c0[i]).0 != (#[trigger] c0[j]).0 by {
                assert(c0[i] == c[i] && c0[j] == c[j]);
            }
        }
        lemme_envoyer(e, c0, t);
        let (r, a) = envoyer(e, c0, t);
        let x = c.last();
        lemme_position_ids(r, e, x.0);
        lemme_position(e, x.0);
        let k = position(r, x.0);
        assert forall|m: int| 0 <= m < c0.len() implies (#[trigger] c0[m]).0 != x.0 by {
            assert(c0[m] == c[m]);
        }
        if k >= 0 {
            assert(!occupe(c0, e[k].id));
            assert(r[k] == e[k]);
        }
        assert forall|j: int| 0 <= j < e.len() && !occupe(c, e[j].id) implies #[trigger] envoyer(e, c, t).0[j] == e[j] by {
            if occupe(c0, e[j].id) {
                let m = choose|m: int| 0 <= m < c0.len() && (#[trigger] c0[m]).0 == e[j].id;
                assert(c[m] == c0[m]);
            }
            assert(!occupe(c0, e[j].id));
            if j == k {
                assert(c[c.len() - 1].0 == e[j].id);
            }
        }
        assert forall|i: int| 0 <= i < envoyer(e, c, t).1.len() implies {
            let y = #[trigger] envoyer(e, c, t).1[i];
            &&& y is Envoyer
            &&& occupe(c, y->Envoyer_ecran)
            &&& position(e, y->Envoyer_ecran) >= 0
            &&& (t < e[position(e, y->Envoyer_ecran)].amorce_jusqu_a
                || e[position(e, y->Envoyer_ecran)].derniere != Some(y->Envoyer_js))
        } by {
            let y = envoyer(e, c, t).1[i];
            if i < a.len() {
                assert(y == a[i]);
                let m = choose|m: int| 0 <= m < c0.len() && (#[trigger] c0[m]).0 == y->Envoyer_ecran;
                assert(c[m] == c0[m]);
            } else {
                assert(c[c.len() - 1] == x);
            }
        }
    }
}

/// Loi : les signaux se lisent au plus toutes les 500 ms. Une image les lit
/// si et seulement si 500 ms se sont écoulées depuis la dernière lecture, et
/// la lecture devient alors la dernière ; aucun autre événement n'y touche.
pub proof fn loi_les_signaux_se_lisent_au_plus_toutes_les_500_ms(s: EtatVue, ev: EvenementVue)
    ensures
        ev matches EvenementVue::Tick { maintenant } ==> {
            &&& pas(s, ev).1.contains(ActionBoucleVue::LireSignaux) <==> maintenant >= s.dernier_signal + PERIODE_SIGNAUX_MS
            &&& pas(s, ev).1.contains(ActionBoucleVue::LireSignaux) ==> pas(s, ev).0.dernier_signal == maintenant
            &&& !pas(s, ev).1.contains(ActionBoucleVue::LireSignaux) ==> pas(s, ev).0.dernier_signal == s.dernier_signal
        },
        !(ev is Tick) ==> pas(s, ev).0.dernier_signal == s.dernier_signal,
{
    if let EvenementVue::Tick { maintenant } = ev {
        let a = pas(s, ev).1;
        if maintenant >= s.dernier_signal + PERIODE_SIGNAUX_MS {
            assert(a[0] == ActionBoucleVue::LireSignaux);
        } else {
            assert(!a.contains(ActionBoucleVue::LireSignaux)) by {
                if a.contains(ActionBoucleVue::LireSignaux) {
                    let i = choose|i: int| 0 <= i < a.len() && a[i] == ActionBoucleVue::LireSignaux;
                    assert(a[i] == ActionBoucleVue::Recenser);
                }
            }
        }
    }
}

/// Loi : un menu par clic. Une lecture de la souris ouvre au plus un menu,
/// et elle en ouvre un si et seulement si le bouton droit, enfoncé à la
/// lecture précédente, vient d'être relâché sur un personnage — qui devient
/// le destinataire de la commande. Tant que le bouton reste relâché, aucun
/// autre menu ne s'ouvre.
pub proof fn loi_un_menu_par_clic(
    s: EtatVue,
    droit: bool,
    sous: Option<(u32, Ou, Option<Tenue>, Seq<Intention>, Seq<Option<Tenue>>)>,
    sous_ensuite: Option<(u32, Ou, Option<Tenue>, Seq<Intention>, Seq<Option<Tenue>>)>,
)
    ensures
        ({
            let (s1, a1) = pas(s, EvenementVue::Souris { droit_enfonce: droit, sous_le_curseur: sous });
            &&& a1.len() <= 1
            &&& a1.len() == 1 <==> s.bouton_droit && !droit && sous is Some
            &&& a1.len() == 1 ==> a1[0] is OuvrirMenu && a1[0]->OuvrirMenu_acteur == (sous->0).0
                && s1.demandeur == Some((sous->0).0)
            &&& !droit ==> pas(s1, EvenementVue::Souris { droit_enfonce: false, sous_le_curseur: sous_ensuite }).1.len() == 0
        }),
{
}

/// Loi : une fenêtre d'écran ne se ferme qu'après trois secondes sans
/// sprite. Quand une image ferme la fenêtre d'un écran, elle ne lui porte
/// aucun sprite, et la fenêtre était notée vide depuis au moins le délai de
/// grâce ; une image qui porte un sprite sur un écran efface cette note.
pub proof fn loi_une_fenetre_ne_se_ferme_qu_apres_trois_secondes_vide(
    s: EtatVue,
    t: u64,
    c: Seq<(u64, Seq<char>)>,
    id: u64,
)
    ensures
        pas_image(s, t, c).1.contains(ActionBoucleVue::FermerEcran(id)) ==> {
            &&& !occupe(c, id)
            &&& exists|k: int| {
                &&& 0 <= k < s.ecrans.len()
                &&& (#[trigger] s.ecrans[k]).id == id
                &&& s.ecrans[k].vide_depuis is Some
                &&& t >= s.ecrans[k].vide_depuis->0 + GRACE_ECRAN_VIDE_MS
            }
        },
        forall|j: int| 0 <= j < trier_vides(s.ecrans, c, t).0.len()
            && occupe(c, (#[trigger] trier_vides(s.ecrans, c, t).0[j]).id)
            ==> trier_vides(s.ecrans, c, t).0[j].vide_depuis is None,
{
    let (e1, a1) = trier_vides(s.ecrans, c, t);
    let (e2, a2) = ouvrir_ecrans(e1, c, t);
    let (e3, a3) = declarer(e2, t, s.a_declarer || a2.len() > 0);
    let (e4, a4) = envoyer(e3, c, t);
    lemme_trier_vides(s.ecrans, c, t);
    lemme_ouvrir_ecrans(e1, c, t);
    lemme_trier_occupees(s.ecrans, c, t);
    let a = pas_image(s, t, c).1;
    if a.contains(ActionBoucleVue::FermerEcran(id)) {
        let i = choose|i: int| 0 <= i < a.len() && a[i] == ActionBoucleVue::FermerEcran(id);
        if i < a1.len() {
            assert(a[i] == a1[i]);
        } else if i < a1.len() + a2.len() {
            assert(a[i] == a2[i - a1.len()]);
        } else if i < a1.len() + a2.len() + a3.len() {
            assert(a[i] == a3[i - a1.len() - a2.len()]);
        } else {
            lemme_envoyer_genre(e3, c, t);
            assert(a[i] == a4[i - a1.len() - a2.len() - a3.len()]);
        }
    }
}

/// Une fenêtre gardée par `trier_vides` sur un écran occupé n'est plus
/// notée vide.
proof fn lemme_trier_occupees(e: Seq<EcranVue>, c: Seq<(u64, Seq<char>)>, t: u64)
    ensures
        forall|j: int| 0 <= j < trier_vides(e, c, t).0.len()
            && occupe(c, (#[trigger] trier_vides(e, c, t).0[j]).id)
            ==> trier_vides(e, c, t).0[j].vide_depuis is None,
    decreases e.len(),
{
    if e.len() > 0 {
        lemme_trier_occupees(e.drop_last(), c, t);
    }
}

/// `envoyer` ne rend que des envois.
proof fn lemme_envoyer_genre(e: Seq<EcranVue>, c: Seq<(u64, Seq<char>)>, t: u64)
    ensures
        forall|i: int| 0 <= i < envoyer(e, c, t).1.len() ==> (#[trigger] envoyer(e, c, t).1[i]) is Envoyer,
    decreases c.len(),
{
    if c.len() > 0 {
        lemme_envoyer_genre(e, c.drop_last(), t);
    }
}

/// Les fenêtres telles qu'elles sont au moment d'envoyer les charges :
/// triées, complétées, et vidées de leur dernière charge si la table des
/// packs vient d'être republiée.
pub open spec fn ecrans_avant_envoi(s: EtatVue, t: u64, c: Seq<(u64, Seq<char>)>) -> Seq<EcranVue> {
    let (e1, a1) = trier_vides(s.ecrans, c, t);
    let (e2, a2) = ouvrir_ecrans(e1, c, t);
    declarer(e2, t, s.a_declarer || a2.len() > 0).0
}

/// Loi : une charge ne part que si elle a changé, et au plus toutes les
/// 66 ms. Une image n'envoie rien avant l'instant prévu, et repousse alors
/// le prochain envoi de 66 ms ; chaque charge envoyée va à un écran qui a sa
/// fenêtre, et diffère de la dernière que cette fenêtre a reçue — à moins
/// que la fenêtre ne soit en amorçage. Seule une image touche à l'instant du
/// prochain envoi.
pub proof fn loi_une_charge_ne_part_que_si_elle_a_change(s: EtatVue, ev: EvenementVue)
    ensures
        ev matches EvenementVue::Image { maintenant, charges } ==> {
            let (s1, a) = pas(s, ev);
            let e = ecrans_avant_envoi(s, maintenant, charges);
            &&& (exists|i: int| 0 <= i < a.len() && (#[trigger] a[i]) is Envoyer)
                ==> maintenant >= s.prochain_envoi && s1.prochain_envoi == plus_borne(maintenant, PERIODE_ENVOI_MS)
            &&& maintenant < s.prochain_envoi ==> s1.prochain_envoi == s.prochain_envoi
            &&& charges_distinctes(charges) ==> forall|i: int| 0 <= i < a.len() && (#[trigger] a[i]) is Envoyer ==> {
                &&& occupe(charges, a[i]->Envoyer_ecran)
                &&& position(e, a[i]->Envoyer_ecran) >= 0
                &&& (maintenant < e[position(e, a[i]->Envoyer_ecran)].amorce_jusqu_a
                    || e[position(e, a[i]->Envoyer_ecran)].derniere != Some(a[i]->Envoyer_js))
            }
        },
        !(ev is Image) ==> pas(s, ev).0.prochain_envoi == s.prochain_envoi,
{
    if let EvenementVue::Image { maintenant: t, charges: c } = ev {
        let (e1, a1) = trier_vides(s.ecrans, c, t);
        let (e2, a2) = ouvrir_ecrans(e1, c, t);
        let (e3, a3) = declarer(e2, t, s.a_declarer || a2.len() > 0);
        let (e4, a4) = envoyer(e3, c, t);
        lemme_trier_vides(s.ecrans, c, t);
        lemme_ouvrir_ecrans(e1, c, t);
        lemme_envoyer_genre(e3, c, t);
        if charges_distinctes(c) {
            lemme_envoyer(e3, c, t);
        }
        let a = pas(s, ev).1;
        assert forall|i: int| 0 <= i < a.len() && (#[trigger] a[i]) is Envoyer implies {
            &&& i >= a1.len() + a2.len() + a3.len()
            &&& t >= s.prochain_envoi
            &&& a[i] == a4[i - a1.len() - a2.len() - a3.len()]
        } by {
            if i < a1.len() {
                assert(a[i] == a1[i]);
            } else if i < a1.len() + a2.len() {
                assert(a[i] == a2[i - a1.len()]);
            } else if i < a1.len() + a2.len() + a3.len() {
                assert(a[i] == a3[i - a1.len() - a2.len()]);
            }
        }
    }
}

/// Loi : deux lectures des signaux sont espacées d'au moins 500 ms, quels
/// que soient les événements qui les séparent — pourvu qu'aucune autre image
/// ne s'intercale.
pub proof fn loi_deux_lectures_des_signaux_sont_espacees(s: EtatVue, t1: u64, ev: EvenementVue, t2: u64)
    requires
        !(ev is Tick),
    ensures
        ({
            let (s1, a1) = pas(s, EvenementVue::Tick { maintenant: t1 });
            let s2 = pas(s1, ev).0;
            let a3 = pas(s2, EvenementVue::Tick { maintenant: t2 }).1;
            a1.contains(ActionBoucleVue::LireSignaux) && a3.contains(ActionBoucleVue::LireSignaux)
                ==> t2 >= t1 + PERIODE_SIGNAUX_MS
        }),
{
    let (s1, a1) = pas(s, EvenementVue::Tick { maintenant: t1 });
    let s2 = pas(s1, ev).0;
    loi_les_signaux_se_lisent_au_plus_toutes_les_500_ms(s, EvenementVue::Tick { maintenant: t1 });
    loi_les_signaux_se_lisent_au_plus_toutes_les_500_ms(s1, ev);
    loi_les_signaux_se_lisent_au_plus_toutes_les_500_ms(s2, EvenementVue::Tick { maintenant: t2 });
}

/// Loi : deux images qui envoient des charges sont espacées d'au moins
/// 66 ms, quels que soient les événements qui les séparent — pourvu qu'aucune
/// autre image ne s'intercale.
pub proof fn loi_deux_envois_sont_espaces_de_66_ms(
    s: EtatVue,
    t1: u64,
    c1: Seq<(u64, Seq<char>)>,
    ev: EvenementVue,
    t2: u64,
    c2: Seq<(u64, Seq<char>)>,
)
    requires
        !(ev is Image),
    ensures
        ({
            let (s1, a1) = pas(s, EvenementVue::Image { maintenant: t1, charges: c1 });
            let s2 = pas(s1, ev).0;
            let a3 = pas(s2, EvenementVue::Image { maintenant: t2, charges: c2 }).1;
            (exists|i: int| 0 <= i < a1.len() && (#[trigger] a1[i]) is Envoyer)
                && (exists|i: int| 0 <= i < a3.len() && (#[trigger] a3[i]) is Envoyer)
                ==> t2 >= plus_borne(t1, PERIODE_ENVOI_MS)
        }),
{
    let (s1, a1) = pas(s, EvenementVue::Image { maintenant: t1, charges: c1 });
    let s2 = pas(s1, ev).0;
    loi_une_charge_ne_part_que_si_elle_a_change(s, EvenementVue::Image { maintenant: t1, charges: c1 });
    loi_une_charge_ne_part_que_si_elle_a_change(s1, ev);
    loi_une_charge_ne_part_que_si_elle_a_change(s2, EvenementVue::Image { maintenant: t2, charges: c2 });
}

/// La fenêtre, réglée comme il faut pour cet écran absorbant.
pub open spec fn reglee(x: EcranVue, absorbant: Option<u64>) -> EcranVue {
    EcranVue { traverse: Some(doit_traverser(x.id, absorbant)), ..x }
}

/// Cette action est-elle le réglage d'une fenêtre de `e` dont le réglage
/// change ?
pub open spec fn reglage_qui_change(e: Seq<EcranVue>, x: ActionBoucleVue, absorbant: Option<u64>) -> bool {
    &&& x is TraverserClics
    &&& exists|j: int|
        0 <= j < e.len() && (#[trigger] e[j]).id == x->TraverserClics_ecran && x->traverser == doit_traverser(
            e[j].id,
            absorbant,
        ) && e[j].traverse != Some(x->traverser)
}

/// Le réglage à demander pour cette fenêtre.
pub open spec fn reglage_de(x: EcranVue, absorbant: Option<u64>) -> ActionBoucleVue {
    ActionBoucleVue::TraverserClics { ecran: x.id, traverser: doit_traverser(x.id, absorbant) }
}

/// Ce que rend `regler_clics` : chaque fenêtre, à sa place, réglée comme il
/// faut ; un réglage par fenêtre dont le réglage change, et aucun autre.
proof fn lemme_regler_clics(e: Seq<EcranVue>, absorbant: Option<u64>)
    ensures
        regler_clics(e, absorbant).0.len() == e.len(),
        forall|j: int| 0 <= j < e.len() ==> #[trigger] regler_clics(e, absorbant).0[j] == reglee(e[j], absorbant),
        forall|i: int|
            0 <= i < regler_clics(e, absorbant).1.len() ==> reglage_qui_change(
                e,
                #[trigger] regler_clics(e, absorbant).1[i],
                absorbant,
            ),
        forall|j: int|
            0 <= j < e.len() && (#[trigger] e[j]).traverse != Some(doit_traverser(e[j].id, absorbant))
                ==> regler_clics(e, absorbant).1.contains(reglage_de(e[j], absorbant)),
    decreases e.len(),
{
    if e.len() > 0 {
        let e0 = e.drop_last();
        lemme_regler_clics(e0, absorbant);
        let (r, a) = regler_clics(e0, absorbant);
        let (r1, a1) = regler_clics(e, absorbant);
        assert forall|j: int| 0 <= j < e.len() implies #[trigger] r1[j] == reglee(e[j], absorbant) by {
            if j < e0.len() {
                assert(r1[j] == r[j]);
                assert(e0[j] == e[j]);
            }
        }
        assert forall|i: int| 0 <= i < a1.len() implies reglage_qui_change(e, #[trigger] a1[i], absorbant) by {
            if i < a.len() {
                assert(a1[i] == a[i]);
                let x = a[i];
                let j = choose|j: int|
                    0 <= j < e0.len() && (#[trigger] e0[j]).id == x->TraverserClics_ecran && x->traverser
                        == doit_traverser(e0[j].id, absorbant) && e0[j].traverse != Some(x->traverser);
                assert(e[j] == e0[j]);
            } else {
                let j = e.len() - 1;
                assert(e[j] == e.last());
            }
        }
        assert forall|j: int|
            0 <= j < e.len() && (#[trigger] e[j]).traverse != Some(doit_traverser(e[j].id, absorbant)) implies a1.contains(
            reglage_de(e[j], absorbant),
        ) by {
            let cible = reglage_de(e[j], absorbant);
            if j < e0.len() {
                assert(e0[j] == e[j]);
                let k = choose|k: int| 0 <= k < a.len() && a[k] == cible;
                assert(a1[k] == a[k]);
            } else {
                assert(a1[a1.len() - 1] == cible);
            }
        }
    }
}

/// Loi : les clics traversent partout sauf sur le personnage. Après la
/// lecture de l'écran absorbant, chaque fenêtre est réglée pour laisser
/// passer les clics, sauf celle de cet écran ; un réglage n'est demandé à
/// Windows que pour une fenêtre dont le réglage change, et il l'est pour
/// chacune de celles-là.
pub proof fn loi_les_clics_ne_se_reglent_que_quand_le_voulu_change(s: EtatVue, absorbant: Option<u64>)
    ensures
        pas(s, EvenementVue::Clics { ecran_absorbant: absorbant }).0.ecrans.len() == s.ecrans.len(),
        forall|j: int|
            0 <= j < s.ecrans.len() ==> #[trigger] pas(s, EvenementVue::Clics { ecran_absorbant: absorbant }).0.ecrans[j]
                == reglee(s.ecrans[j], absorbant),
        forall|i: int|
            0 <= i < pas(s, EvenementVue::Clics { ecran_absorbant: absorbant }).1.len() ==> reglage_qui_change(
                s.ecrans,
                #[trigger] pas(s, EvenementVue::Clics { ecran_absorbant: absorbant }).1[i],
                absorbant,
            ),
        forall|j: int|
            0 <= j < s.ecrans.len() && (#[trigger] s.ecrans[j]).traverse != Some(doit_traverser(s.ecrans[j].id, absorbant))
                ==> pas(s, EvenementVue::Clics { ecran_absorbant: absorbant }).1.contains(
                reglage_de(s.ecrans[j], absorbant),
            ),
{
    lemme_regler_clics(s.ecrans, absorbant);
}

/// Loi : un personnage retiré joue son départ, à moins que la demande ne
/// l'ait exclu. Le rechargement suit le plan action par action : une
/// création crée, un retrait fait partir — ou, sans animation, retire sur-le-
/// champ ; et sans cette demande, aucun personnage n'est retiré sur-le-champ.
pub proof fn loi_un_retrait_joue_le_depart_sauf_demande(
    s: EtatVue,
    p: Seq<Seq<char>>,
    v: Seq<Seq<char>>,
    sans_animation: bool,
)
    ensures
        pas(s, EvenementVue::Roster { presents: p, voulus: v, sans_animation }).1.len() == plan(p, v).len(),
        forall|i: int|
            0 <= i < plan(p, v).len() ==> #[trigger] pas(
                s,
                EvenementVue::Roster { presents: p, voulus: v, sans_animation },
            ).1[i] == action_du_plan(plan(p, v)[i], sans_animation),
        !sans_animation ==> forall|i: int|
            0 <= i < pas(s, EvenementVue::Roster { presents: p, voulus: v, sans_animation }).1.len()
                ==> !retire_sur_le_champ(
                #[trigger] pas(s, EvenementVue::Roster { presents: p, voulus: v, sans_animation }).1[i],
            ),
{
    let r = plan(p, v);
    let a = pas(s, EvenementVue::Roster { presents: p, voulus: v, sans_animation }).1;
    if !sans_animation {
        assert forall|i: int| 0 <= i < a.len() implies !retire_sur_le_champ(#[trigger] a[i]) by {
            assert(a[i] == action_du_plan(r[i], sans_animation));
        }
    }
}

/// Cette action retire-t-elle un personnage sur-le-champ ?
pub open spec fn retire_sur_le_champ(a: ActionBoucleVue) -> bool {
    a matches ActionBoucleVue::Roster(ActionVue::RetirerUn(_))
}

} // verus!
