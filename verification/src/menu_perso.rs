//! Le menu du clic droit sur un personnage : le décrire, décoder ce qu'on y
//! choisit, et dire à qui revient la commande.
//!
//! Ce module ne déclenche rien : il propose. Le menu est reconstruit à
//! chaque clic droit, donc toujours vrai sans synchronisation.

use vstd::prelude::*;
use crate::actions::{ID_CATALOGUE, ID_P_CACHER, ID_P_CACHER_CE, ID_QUITTER};
use crate::behavior::intention::{Intention, Jeu};
use crate::behavior::tenue::{Tenue, intention_de};
use crate::geom::Face;
use crate::texte::egal;

verus! {

/// Ce que demande une entrée du menu — pas toujours une intention.
#[derive(Debug, Clone, Copy, PartialEq, Eq, Structural)]
pub enum Commande {
    /// Une intention : le comportement normal, choisi ici au menu.
    Intention(Intention),
    /// Tenir cette action, ou la relâcher si c'est déjà celle qu'il tient.
    Basculer(Tenue),
    /// La tenir, quoi qu'il tienne déjà.
    Tenir(Tenue),
    /// La relâcher s'il la tient, ne rien faire sinon.
    Relacher(Tenue),
    /// Reprendre l'escalade en cours pour viser le bas du mur.
    Redescendre,
    /// Effacer l'intention : la règle de sécurité du monde vertical le fait
    /// tomber.
    SeLacher,
}

/// L'endroit d'où l'on fait un clic droit, simplifié aux trois cas qui
/// changent le menu proposé.
#[derive(Debug, Clone, Copy, PartialEq, Eq, Structural)]
pub enum Ou {
    /// Au sol, en chute, ou porté.
    Sol,
    /// Accroché à un mur.
    Mur,
    /// Suspendu au plafond.
    Plafond,
}

/// À qui revient la commande choisie dans le menu : à celui qui l'a ouvert,
/// identifié par son label, et à personne d'autre.
///
/// Servie, la commande quitte la boîte et le demandeur est oublié. Pour un
/// autre acteur, ou tant que la boîte est vide, rien ne bouge.
pub fn commande_pour(demandeur: &mut Option<String>, boite: &mut Option<Commande>, label: &str) -> (r: Option<Commande>)
    ensures
        ({
            let pour_lui = match *old(demandeur) {
                Some(d) => d@ == label@,
                None => false,
            };
            if pour_lui && (*old(boite)) is Some {
                &&& r == *old(boite)
                &&& *final(boite) == None::<Commande>
                &&& *final(demandeur) == None::<String>
            } else {
                &&& r == None::<Commande>
                &&& *final(boite) == *old(boite)
                &&& *final(demandeur) == *old(demandeur)
            }
        }),
{
    let pour_lui = match demandeur {
        Some(d) => egal(d.as_str(), label),
        None => false,
    };
    if !pour_lui {
        return None;
    }
    match *boite {
        Some(c) => {
            *boite = None;
            *demandeur = None;
            Some(c)
        },
        None => None,
    }
}

/// La commande que reçoit un acteur à cette image : la sienne d'abord, et
/// sinon celle adressée à tous.
pub fn commande_de_l_acteur(personnelle: Option<Commande>, pour_tous: Option<Commande>) -> (r: Option<Commande>)
    ensures
        r == if personnelle is Some {
            personnelle
        } else {
            pour_tous
        },
{
    match personnelle {
        Some(c) => Some(c),
        None => pour_tous,
    }
}

/// Le contexte de menu qui correspond à la face où est accroché le
/// personnage — `None` s'il ne l'est à aucune (en chute, ou porté).
pub fn ou_de(accroche: Option<Face>) -> (o: Ou)
    ensures
        o == match accroche {
            Some(Face::Left) | Some(Face::Right) => Ou::Mur,
            Some(Face::Bottom) => Ou::Plafond,
            _ => Ou::Sol,
        },
{
    match accroche {
        Some(Face::Left) | Some(Face::Right) => Ou::Mur,
        Some(Face::Bottom) => Ou::Plafond,
        _ => Ou::Sol,
    }
}

/// Une ligne de la table des envies du menu.
pub struct Envie {
    pub id: &'static str,
    pub libelle: &'static str,
    /// Où cette entrée apparaît.
    pub ou: Vec<Ou>,
    pub commande: Commande,
}

/// Une ligne de la table, en spécification.
pub type EnvieVue = (Seq<char>, Seq<char>, Seq<Ou>, Commande);

impl View for Envie {
    type V = EnvieVue;

    open spec fn view(&self) -> EnvieVue {
        (self.id@, self.libelle@, self.ou@, self.commande)
    }
}

/// Les envies proposées par le menu, dans l'ordre d'affichage. Une ligne
/// `Basculer` est une action tenue, avec une coche ; une ligne `Intention`
/// est ponctuelle.
pub open spec fn table_envies() -> Seq<EnvieVue> {
    seq![
        ("perso.flaner"@, "Flâner"@, seq![Ou::Sol], Commande::Basculer(Tenue::Flaner)),
        ("perso.asseoir"@, "S'asseoir"@, seq![Ou::Sol], Commande::Basculer(Tenue::Asseoir)),
        (
            "perso.tete"@,
            "Faire son petit truc"@,
            seq![Ou::Sol],
            Commande::Intention(Intention::Jouer(Jeu::TeteQuiTourne)),
        ),
        (
            "perso.jambes"@,
            "Balancer les jambes"@,
            seq![Ou::Sol],
            Commande::Basculer(Tenue::BalancerLesJambes),
        ),
        (
            "perso.grimper"@,
            "Grimper au mur"@,
            seq![Ou::Sol, Ou::Mur, Ou::Plafond],
            Commande::Basculer(Tenue::Grimper),
        ),
        (
            "perso.rester"@,
            "Rester accroché"@,
            seq![Ou::Mur, Ou::Plafond],
            Commande::Basculer(Tenue::ResterAccroche),
        ),
        ("perso.redescendre"@, "Redescendre"@, seq![Ou::Mur], Commande::Redescendre),
        ("perso.lacher"@, "Se lâcher"@, seq![Ou::Mur, Ou::Plafond], Commande::SeLacher),
    ]
}

/// La section « Tout le monde » : les actions du sol, données à tous.
pub open spec fn table_tous() -> Seq<EnvieVue> {
    seq![
        ("tous.flaner"@, "Flâner"@, seq![Ou::Sol, Ou::Mur, Ou::Plafond], Commande::Basculer(Tenue::Flaner)),
        ("tous.asseoir"@, "S'asseoir"@, seq![Ou::Sol, Ou::Mur, Ou::Plafond], Commande::Basculer(Tenue::Asseoir)),
        (
            "tous.tete"@,
            "Faire son petit truc"@,
            seq![Ou::Sol, Ou::Mur, Ou::Plafond],
            Commande::Intention(Intention::Jouer(Jeu::TeteQuiTourne)),
        ),
        (
            "tous.jambes"@,
            "Balancer les jambes"@,
            seq![Ou::Sol, Ou::Mur, Ou::Plafond],
            Commande::Basculer(Tenue::BalancerLesJambes),
        ),
        ("tous.grimper"@, "Grimper au mur"@, seq![Ou::Sol, Ou::Mur, Ou::Plafond], Commande::Basculer(Tenue::Grimper)),
    ]
}

/// Les vues d'une table.
pub open spec fn vues_table(t: Seq<Envie>) -> Seq<EnvieVue> {
    t.map_values(|e: Envie| e@)
}

/// La table des envies du menu du personnage.
pub fn envies() -> (t: Vec<Envie>)
    ensures
        vues_table(t@) == table_envies(),
{
    let t = vec![
        Envie {
            id: "perso.flaner",
            libelle: "Flâner",
            ou: vec![Ou::Sol],
            commande: Commande::Basculer(Tenue::Flaner),
        },
        Envie {
            id: "perso.asseoir",
            libelle: "S'asseoir",
            ou: vec![Ou::Sol],
            commande: Commande::Basculer(Tenue::Asseoir),
        },
        Envie {
            id: "perso.tete",
            libelle: "Faire son petit truc",
            ou: vec![Ou::Sol],
            commande: Commande::Intention(Intention::Jouer(Jeu::TeteQuiTourne)),
        },
        Envie {
            id: "perso.jambes",
            libelle: "Balancer les jambes",
            ou: vec![Ou::Sol],
            commande: Commande::Basculer(Tenue::BalancerLesJambes),
        },
        Envie {
            id: "perso.grimper",
            libelle: "Grimper au mur",
            ou: vec![Ou::Sol, Ou::Mur, Ou::Plafond],
            commande: Commande::Basculer(Tenue::Grimper),
        },
        Envie {
            id: "perso.rester",
            libelle: "Rester accroché",
            ou: vec![Ou::Mur, Ou::Plafond],
            commande: Commande::Basculer(Tenue::ResterAccroche),
        },
        Envie {
            id: "perso.redescendre",
            libelle: "Redescendre",
            ou: vec![Ou::Mur],
            commande: Commande::Redescendre,
        },
        Envie {
            id: "perso.lacher",
            libelle: "Se lâcher",
            ou: vec![Ou::Mur, Ou::Plafond],
            commande: Commande::SeLacher,
        },
    ];
    assert(t@[0].ou@ =~= seq![Ou::Sol]);
    assert(t@[1].ou@ =~= seq![Ou::Sol]);
    assert(t@[2].ou@ =~= seq![Ou::Sol]);
    assert(t@[3].ou@ =~= seq![Ou::Sol]);
    assert(t@[4].ou@ =~= seq![Ou::Sol, Ou::Mur, Ou::Plafond]);
    assert(t@[5].ou@ =~= seq![Ou::Mur, Ou::Plafond]);
    assert(t@[6].ou@ =~= seq![Ou::Mur]);
    assert(t@[7].ou@ =~= seq![Ou::Mur, Ou::Plafond]);
    assert(vues_table(t@) =~= table_envies());
    t
}

/// La table de la section « Tout le monde ».
pub fn tous() -> (t: Vec<Envie>)
    ensures
        vues_table(t@) == table_tous(),
{
    let t = vec![
        Envie {
            id: "tous.flaner",
            libelle: "Flâner",
            ou: vec![Ou::Sol, Ou::Mur, Ou::Plafond],
            commande: Commande::Basculer(Tenue::Flaner),
        },
        Envie {
            id: "tous.asseoir",
            libelle: "S'asseoir",
            ou: vec![Ou::Sol, Ou::Mur, Ou::Plafond],
            commande: Commande::Basculer(Tenue::Asseoir),
        },
        Envie {
            id: "tous.tete",
            libelle: "Faire son petit truc",
            ou: vec![Ou::Sol, Ou::Mur, Ou::Plafond],
            commande: Commande::Intention(Intention::Jouer(Jeu::TeteQuiTourne)),
        },
        Envie {
            id: "tous.jambes",
            libelle: "Balancer les jambes",
            ou: vec![Ou::Sol, Ou::Mur, Ou::Plafond],
            commande: Commande::Basculer(Tenue::BalancerLesJambes),
        },
        Envie {
            id: "tous.grimper",
            libelle: "Grimper au mur",
            ou: vec![Ou::Sol, Ou::Mur, Ou::Plafond],
            commande: Commande::Basculer(Tenue::Grimper),
        },
    ];
    assert(vues_table(t@) =~= table_tous());
    t
}

/// La commande de la première ligne de `t`, à partir du rang `i`, dont
/// l'identifiant est `id`.
pub open spec fn chercher(t: Seq<EnvieVue>, id: Seq<char>, i: nat) -> Option<Commande>
    decreases t.len() - i,
{
    if i >= t.len() {
        None
    } else if t[i as int].0 == id {
        Some(t[i as int].3)
    } else {
        chercher(t, id, i + 1)
    }
}

/// Cherche `id` dans une table.
fn chercher_dans(t: &Vec<Envie>, id: &str) -> (r: Option<Commande>)
    ensures
        r == chercher(vues_table(t@), id@, 0),
{
    let mut i: usize = 0;
    while i < t.len()
        invariant
            i <= t@.len(),
            chercher(vues_table(t@), id@, 0) == chercher(vues_table(t@), id@, i as nat),
        decreases t@.len() - i,
    {
        assert(vues_table(t@)[i as int] == t@[i as int]@);
        if egal(t[i].id, id) {
            return Some(t[i].commande);
        }
        i = i + 1;
    }
    None
}

/// La commande que désigne un identifiant du menu du personnage, s'il en
/// désigne une.
pub fn commande_de(id: &str) -> (r: Option<Commande>)
    ensures
        r == chercher(table_envies(), id@, 0),
{
    chercher_dans(&envies(), id)
}

/// La commande d'une entrée de la section « Tout le monde », si `id` en
/// désigne une.
pub fn commande_de_tous(id: &str) -> (r: Option<Commande>)
    ensures
        r == chercher(table_tous(), id@, 0),
{
    chercher_dans(&tous(), id)
}

/// Les identifiants communs avec le tray.
pub open spec fn ids_communs() -> Seq<Seq<char>> {
    seq!["cacher.ce"@, "cacher"@, "catalogue"@, "quitter"@]
}

/// Tous les identifiants que le menu peut renvoyer.
pub open spec fn ids_connus() -> Seq<Seq<char>> {
    table_envies().map_values(|e: EnvieVue| e.0) + table_tous().map_values(|e: EnvieVue| e.0)
        + ids_communs()
}

/// L'identifiant `&'static` qui correspond à `id`, s'il est l'une de nos
/// entrées ; `None` sinon. N'accepter que ce qu'on connaît.
pub fn id_connu(id: &str) -> (r: Option<&'static str>)
    ensures
        r is Some <==> ids_connus().contains(id@),
        r matches Some(s) ==> s@ == id@,
{
    let mut candidats: Vec<&'static str> = Vec::new();
    let e = envies();
    let t = tous();
    let mut i: usize = 0;
    while i < e.len()
        invariant
            i <= e@.len(),
            vues_table(e@) == table_envies(),
            candidats@.len() == i,
            forall|k: int| 0 <= k < i ==> (#[trigger] candidats@[k])@ == table_envies()[k].0,
        decreases e@.len() - i,
    {
        assert(vues_table(e@)[i as int] == e@[i as int]@);
        candidats.push(e[i].id);
        i = i + 1;
    }
    let mut j: usize = 0;
    while j < t.len()
        invariant
            j <= t@.len(),
            vues_table(t@) == table_tous(),
            candidats@.len() == table_envies().len() + j,
            forall|k: int|
                0 <= k < table_envies().len() ==> (#[trigger] candidats@[k])@ == table_envies()[k].0,
            forall|k: int|
                0 <= k < j ==> (#[trigger] candidats@[table_envies().len() + k])@
                    == table_tous()[k].0,
        decreases t@.len() - j,
    {
        assert(vues_table(t@)[j as int] == t@[j as int]@);
        candidats.push(t[j].id);
        j = j + 1;
    }
    candidats.push(ID_P_CACHER_CE);
    candidats.push(ID_P_CACHER);
    candidats.push(ID_CATALOGUE);
    candidats.push(ID_QUITTER);
    let ghost attendus = ids_connus();
    assert forall|k: int| 0 <= k < candidats@.len() implies (#[trigger] candidats@[k])@
        == attendus[k] by {
        if k < table_envies().len() {
        } else if k < table_envies().len() + table_tous().len() {
            assert(candidats@[table_envies().len() + (k - table_envies().len())]@ == table_tous()[k
                - table_envies().len()].0);
        }
    }
    let mut n: usize = 0;
    while n < candidats.len()
        invariant
            n <= candidats@.len(),
            candidats@.len() == attendus.len(),
            attendus == ids_connus(),
            forall|k: int| 0 <= k < candidats@.len() ==> (#[trigger] candidats@[k])@ == attendus[k],
            forall|k: int| 0 <= k < n ==> attendus[k] != id@,
        decreases candidats@.len() - n,
    {
        if egal(candidats[n], id) {
            assert(attendus[n as int] == id@);
            return Some(candidats[n]);
        }
        n = n + 1;
    }
    assert(!attendus.contains(id@));
    None
}

/// Vrai si tous les présents tiennent `t`, et qu'il y en a au moins un.
pub open spec fn tous_tiennent(t: Tenue, presents: Seq<Option<Tenue>>) -> bool {
    presents.len() > 0 && forall|i: int| 0 <= i < presents.len() ==> presents[i] == Some(t)
}

/// Vrai si TOUS les présents tiennent `t` — et qu'il y en a au moins un.
/// Sans personne, « tous la tiennent » serait vrai par vacuité.
pub fn tous_la_tiennent(t: Tenue, presents: &[Option<Tenue>]) -> (r: bool)
    ensures
        r == tous_tiennent(t, presents@),
{
    if presents.len() == 0 {
        return false;
    }
    let mut i: usize = 0;
    while i < presents.len()
        invariant
            i <= presents@.len(),
            forall|k: int| 0 <= k < i ==> presents@[k] == Some(t),
        decreases presents@.len() - i,
    {
        match presents[i] {
            Some(u) => {
                if u != t {
                    return false;
                }
            },
            None => {
                return false;
            },
        }
        i = i + 1;
    }
    true
}

/// La commande d'une ligne de la table qui concerne tout le monde, devenue
/// une commande pour chacun : si tous la tiennent, un clic la relâche chez
/// tous ; sinon, un clic la donne à tous.
pub open spec fn resolue_pour_tous(c: Commande, presents: Seq<Option<Tenue>>) -> Commande {
    match c {
        Commande::Basculer(t) => if tous_tiennent(t, presents) {
            Commande::Relacher(t)
        } else {
            Commande::Tenir(t)
        },
        autre => autre,
    }
}

/// Ce que devient une commande de la section « Tout le monde » pour les
/// personnages présents.
pub fn resoudre_pour_tous(c: Commande, presents: &[Option<Tenue>]) -> (r: Commande)
    ensures
        r == resolue_pour_tous(c, presents@),
{
    match c {
        Commande::Basculer(t) => {
            if tous_la_tiennent(t, presents) {
                Commande::Relacher(t)
            } else {
                Commande::Tenir(t)
            }
        },
        autre => autre,
    }
}

// ── La description du menu ──────────────────────────────────────────────

/// Une ligne du menu : une entrée cliquable, un titre de section, ou un
/// séparateur.
#[derive(Debug, Clone, Copy, PartialEq, Eq)]
pub enum Ligne {
    /// `id` est l'identifiant que reçoit le gestionnaire d'actions ; `coche`
    /// dit si l'action est tenue — déduite de la tenue, jamais stockée.
    Entree { id: &'static str, libelle: &'static str, coche: bool },
    /// Un intitulé de section, non cliquable.
    Titre { texte: &'static str },
    Separateur,
}

/// Une ligne du menu, en spécification.
pub enum LigneVue {
    Entree { id: Seq<char>, libelle: Seq<char>, coche: bool },
    Titre { texte: Seq<char> },
    Separateur,
}

impl View for Ligne {
    type V = LigneVue;

    open spec fn view(&self) -> LigneVue {
        match *self {
            Ligne::Entree { id, libelle, coche } => LigneVue::Entree { id: id@, libelle: libelle@, coche },
            Ligne::Titre { texte } => LigneVue::Titre { texte: texte@ },
            Ligne::Separateur => LigneVue::Separateur,
        }
    }
}

/// Les vues d'une suite de lignes.
pub open spec fn vues_lignes(l: Seq<Ligne>) -> Seq<LigneVue> {
    l.map_values(|x: Ligne| x@)
}

/// Une commande est jouable par ce personnage si son pack sait jouer
/// l'intention qu'elle demande ; les commandes propres à l'escalade en cours
/// ne demandent aucune pose de plus.
pub open spec fn jouable(c: Commande, jouables: Seq<Intention>) -> bool {
    match c {
        Commande::Intention(i) => jouables.contains(i),
        Commande::Basculer(t) => jouables.contains(intention_de(t)),
        Commande::Tenir(t) => jouables.contains(intention_de(t)),
        Commande::Relacher(t) => jouables.contains(intention_de(t)),
        Commande::Redescendre => true,
        Commande::SeLacher => true,
    }
}

/// Seule une action tenue a une coche : cochée si c'est celle qu'il tient.
pub open spec fn coche_perso(c: Commande, tenue: Option<Tenue>) -> bool {
    match c {
        Commande::Basculer(t) => tenue == Some(t),
        _ => false,
    }
}

/// Une envie est proposée là où sa ligne le dit, si elle est jouable.
pub open spec fn proposee(e: EnvieVue, ou: Ou, jouables: Seq<Intention>) -> bool {
    e.2.contains(ou) && jouable(e.3, jouables)
}

/// L'entrée du menu qui montre une envie de la table.
pub open spec fn entree_de(e: EnvieVue, tenue: Option<Tenue>) -> LigneVue {
    LigneVue::Entree { id: e.0, libelle: e.1, coche: coche_perso(e.3, tenue) }
}

/// Les entrées du personnage : les lignes de `t` proposées, dans l'ordre.
pub open spec fn entrees_perso(t: Seq<EnvieVue>, ou: Ou, jouables: Seq<Intention>, tenue: Option<Tenue>) -> Seq<LigneVue>
    decreases t.len(),
{
    if t.len() == 0 {
        Seq::empty()
    } else {
        let avant = entrees_perso(t.drop_last(), ou, jouables, tenue);
        let e = t.last();
        if proposee(e, ou, jouables) {
            avant.push(entree_de(e, tenue))
        } else {
            avant
        }
    }
}

/// Une ligne de la section « Tout le monde » est cochée si tous les présents
/// tiennent son action.
pub open spec fn coche_tous(c: Commande, presents: Seq<Option<Tenue>>) -> bool {
    match c {
        Commande::Basculer(t) => tous_tiennent(t, presents),
        _ => false,
    }
}

/// Les entrées de la section « Tout le monde », toutes proposées.
pub open spec fn entrees_tous(presents: Seq<Option<Tenue>>) -> Seq<LigneVue> {
    table_tous().map_values(
        |e: EnvieVue| LigneVue::Entree { id: e.0, libelle: e.1, coche: coche_tous(e.3, presents) },
    )
}

/// Le titre de la section « Tout le monde ».
pub open spec fn titre_tous() -> LigneVue {
    LigneVue::Titre { texte: "Tout le monde"@ }
}

/// La fin du menu, commune avec le tray : les deux « Cacher », le
/// catalogue, et « Quitter » à part, derrière son propre séparateur.
pub open spec fn fin_du_menu() -> Seq<LigneVue> {
    seq![
        LigneVue::Separateur,
        LigneVue::Entree { id: ID_P_CACHER_CE@, libelle: "Cacher ce personnage"@, coche: false },
        LigneVue::Entree { id: ID_P_CACHER@, libelle: "Cacher tous les personnages"@, coche: false },
        LigneVue::Entree { id: ID_CATALOGUE@, libelle: "Catalogue de personnages…"@, coche: false },
        LigneVue::Separateur,
        LigneVue::Entree { id: ID_QUITTER@, libelle: "Quitter"@, coche: false },
    ]
}

/// Le début du menu : les envies du personnage, suivies d'un séparateur
/// s'il y en a au moins une.
pub open spec fn debut_du_menu(ou: Ou, jouables: Seq<Intention>, tenue: Option<Tenue>) -> Seq<LigneVue> {
    let p = entrees_perso(table_envies(), ou, jouables, tenue);
    if p.len() == 0 {
        p
    } else {
        p.push(LigneVue::Separateur)
    }
}

/// Le menu d'un personnage, tel qu'il doit être là où il est.
pub open spec fn menu(ou: Ou, jouables: Seq<Intention>, tenue: Option<Tenue>, presents: Seq<Option<Tenue>>) -> Seq<LigneVue> {
    debut_du_menu(ou, jouables, tenue) + seq![titre_tous()] + entrees_tous(presents) + fin_du_menu()
}

fn contient_ou(v: &Vec<Ou>, ou: Ou) -> (r: bool)
    ensures
        r == v@.contains(ou),
{
    let mut i: usize = 0;
    while i < v.len()
        invariant
            i <= v@.len(),
            forall|k: int| 0 <= k < i ==> v@[k] != ou,
        decreases v@.len() - i,
    {
        if v[i] == ou {
            return true;
        }
        i = i + 1;
    }
    false
}

fn contient_intention(v: &[Intention], x: Intention) -> (r: bool)
    ensures
        r == v@.contains(x),
{
    let mut i: usize = 0;
    while i < v.len()
        invariant
            i <= v@.len(),
            forall|k: int| 0 <= k < i ==> v@[k] != x,
        decreases v@.len() - i,
    {
        if v[i] == x {
            return true;
        }
        i = i + 1;
    }
    false
}

fn est_jouable(c: Commande, jouables: &[Intention]) -> (r: bool)
    ensures
        r == jouable(c, jouables@),
{
    match c {
        Commande::Intention(i) => contient_intention(jouables, i),
        Commande::Basculer(t) => contient_intention(jouables, t.intention()),
        Commande::Tenir(t) => contient_intention(jouables, t.intention()),
        Commande::Relacher(t) => contient_intention(jouables, t.intention()),
        Commande::Redescendre => true,
        Commande::SeLacher => true,
    }
}

/// Le menu d'un personnage, ligne par ligne, tel qu'il doit être là où il
/// est.
///
/// `jouables` sont les intentions que le pack du personnage cliqué sait
/// jouer : une envie injouable n'apparaît pas. `ou` retire les entrées qui
/// n'ont pas de sens là où il est. `tenue` est celle du personnage cliqué,
/// `presents` ce que tient chacun des présents — lui compris : ce sont les
/// seules sources des coches.
pub fn lignes(jouables: &[Intention], ou: Ou, tenue: Option<Tenue>, presents: &[Option<Tenue>]) -> (l: Vec<Ligne>)
    ensures
        vues_lignes(l@) == menu(ou, jouables@, tenue, presents@),
{
    let mut l: Vec<Ligne> = Vec::new();
    let e = envies();
    let mut i: usize = 0;
    while i < e.len()
        invariant
            i <= e@.len(),
            vues_table(e@) == table_envies(),
            vues_lignes(l@) == entrees_perso(table_envies().take(i as int), ou, jouables@, tenue),
        decreases e@.len() - i,
    {
        let ghost t = table_envies();
        assert(t.take(i + 1).drop_last() =~= t.take(i as int));
        assert(vues_table(e@)[i as int] == e@[i as int]@);
        let ghost avant = l@;
        if contient_ou(&e[i].ou, ou) && est_jouable(e[i].commande, jouables) {
            let coche = match e[i].commande {
                Commande::Basculer(t) => match tenue {
                    Some(u) => u == t,
                    None => false,
                },
                _ => false,
            };
            let x = Ligne::Entree { id: e[i].id, libelle: e[i].libelle, coche };
            l.push(x);
            assert(vues_lignes(l@) =~= vues_lignes(avant).push(x@));
        }
        i = i + 1;
    }
    assert(table_envies().take(e@.len() as int) =~= table_envies());
    if l.len() > 0 {
        let ghost avant = l@;
        l.push(Ligne::Separateur);
        assert(vues_lignes(l@) =~= vues_lignes(avant).push(LigneVue::Separateur));
    }
    let ghost debut = l@;
    assert(vues_lignes(debut) == debut_du_menu(ou, jouables@, tenue));
    l.push(Ligne::Titre { texte: "Tout le monde" });
    assert(vues_lignes(l@) =~= vues_lignes(debut) + seq![titre_tous()]);
    let t = tous();
    let mut j: usize = 0;
    while j < t.len()
        invariant
            j <= t@.len(),
            vues_table(t@) == table_tous(),
            vues_lignes(l@) == vues_lignes(debut) + seq![titre_tous()] + entrees_tous(presents@).take(
                j as int,
            ),
        decreases t@.len() - j,
    {
        assert(vues_table(t@)[j as int] == t@[j as int]@);
        let coche = match t[j].commande {
            Commande::Basculer(u) => tous_la_tiennent(u, presents),
            _ => false,
        };
        let ghost avant = l@;
        let x = Ligne::Entree { id: t[j].id, libelle: t[j].libelle, coche };
        l.push(x);
        assert(vues_lignes(l@) =~= vues_lignes(avant).push(x@));
        assert(entrees_tous(presents@).take(j + 1) =~= entrees_tous(presents@).take(j as int).push(
            x@,
        ));
        j = j + 1;
    }
    assert(entrees_tous(presents@).take(t@.len() as int) =~= entrees_tous(presents@));
    let ghost milieu = l@;
    l.push(Ligne::Separateur);
    l.push(Ligne::Entree { id: ID_P_CACHER_CE, libelle: "Cacher ce personnage", coche: false });
    l.push(Ligne::Entree { id: ID_P_CACHER, libelle: "Cacher tous les personnages", coche: false });
    l.push(Ligne::Entree { id: ID_CATALOGUE, libelle: "Catalogue de personnages…", coche: false });
    l.push(Ligne::Separateur);
    l.push(Ligne::Entree { id: ID_QUITTER, libelle: "Quitter", coche: false });
    assert(vues_lignes(l@) =~= vues_lignes(milieu) + fin_du_menu());
    l
}

// ── Les lois des tables ─────────────────────────────────────────────────

/// Ce que disent les identifiants écrits dans les tables : ceux du
/// personnage commencent par `p`, ceux de « Tout le monde » par `t`, les
/// communs par `c` ou `q`, et aucune table n'a deux fois le même.
proof fn lemme_identifiants()
    ensures
        forall|j: int| 0 <= j < table_envies().len() ==> (#[trigger] table_envies()[j]).0.len() > 6
            && table_envies()[j].0[0] == 'p',
        forall|j: int, k: int|
            0 <= j < table_envies().len() && 0 <= k < table_envies().len() && j != k
                ==> (#[trigger] table_envies()[j]).0 != (#[trigger] table_envies()[k]).0,
        forall|j: int| 0 <= j < table_tous().len() ==> (#[trigger] table_tous()[j]).0.len() > 5
            && table_tous()[j].0[0] == 't',
        forall|j: int, k: int|
            0 <= j < table_tous().len() && 0 <= k < table_tous().len() && j != k
                ==> (#[trigger] table_tous()[j]).0 != (#[trigger] table_tous()[k]).0,
        forall|j: int| 0 <= j < ids_communs().len() ==> (#[trigger] ids_communs()[j]).len() > 0
            && (ids_communs()[j][0] == 'c' || ids_communs()[j][0] == 'q'),
        ID_P_CACHER_CE@ == ids_communs()[0],
        ID_P_CACHER@ == ids_communs()[1],
        ID_CATALOGUE@ == ids_communs()[2],
        ID_QUITTER@ == ids_communs()[3],
{
    reveal_strlit("perso.flaner");
    reveal_strlit("perso.asseoir");
    reveal_strlit("perso.tete");
    reveal_strlit("perso.jambes");
    reveal_strlit("perso.grimper");
    reveal_strlit("perso.rester");
    reveal_strlit("perso.redescendre");
    reveal_strlit("perso.lacher");
    reveal_strlit("tous.flaner");
    reveal_strlit("tous.asseoir");
    reveal_strlit("tous.tete");
    reveal_strlit("tous.jambes");
    reveal_strlit("tous.grimper");
    reveal_strlit("cacher.ce");
    reveal_strlit("cacher");
    reveal_strlit("catalogue");
    reveal_strlit("quitter");
    let e = table_envies();
    let t = table_tous();
    assert forall|j: int, k: int|
        0 <= j < e.len() && 0 <= k < e.len() && j != k implies (#[trigger] e[j]).0 != (#[trigger] e[k]).0 by {
        assert(e[j].0[6] != e[k].0[6] || e[j].0.len() != e[k].0.len());
    }
    assert forall|j: int, k: int|
        0 <= j < t.len() && 0 <= k < t.len() && j != k implies (#[trigger] t[j]).0 != (#[trigger] t[k]).0 by {
        assert(t[j].0[5] != t[k].0[5] || t[j].0.len() != t[k].0.len());
    }
}

proof fn lemme_chercher_trouve(t: Seq<EnvieVue>, i: nat, k: nat)
    requires
        k <= i < t.len(),
        forall|j: int| k <= j < i ==> t[j].0 != t[i as int].0,
    ensures
        chercher(t, t[i as int].0, k) == Some(t[i as int].3),
    decreases i - k,
{
    if k < i {
        lemme_chercher_trouve(t, i, k + 1);
    }
}

proof fn lemme_chercher_absent(t: Seq<EnvieVue>, id: Seq<char>, k: nat)
    requires
        forall|j: int| k <= j < t.len() ==> t[j].0 != id,
    ensures
        chercher(t, id, k) == None::<Commande>,
    decreases t.len() - k,
{
    if k < t.len() {
        lemme_chercher_absent(t, id, k + 1);
    }
}

/// Loi : chaque entrée du menu du personnage se décode en sa propre
/// commande — aucun identifiant n'y est en double.
pub proof fn loi_chaque_envie_se_decode_en_elle_meme(i: int)
    requires
        0 <= i < table_envies().len(),
    ensures
        chercher(table_envies(), table_envies()[i].0, 0) == Some(table_envies()[i].3),
{
    lemme_identifiants();
    let t = table_envies();
    assert forall|j: int| 0 <= j < i implies t[j].0 != t[i].0 by {
        assert(t[j] == t[j] && t[i] == t[i]);
    }
    lemme_chercher_trouve(t, i as nat, 0);
}

/// Loi : chaque entrée de la section « Tout le monde » se décode en sa
/// propre commande, et les deux tables ne partagent aucun identifiant : un
/// ordre à tous ne va jamais au seul demandeur, ni l'inverse.
pub proof fn loi_les_deux_tables_sont_disjointes(i: int, j: int)
    requires
        0 <= i < table_tous().len(),
        0 <= j < table_envies().len(),
    ensures
        chercher(table_tous(), table_tous()[i].0, 0) == Some(table_tous()[i].3),
        chercher(table_envies(), table_tous()[i].0, 0) == None::<Commande>,
        chercher(table_tous(), table_envies()[j].0, 0) == None::<Commande>,
{
    lemme_identifiants();
    let t = table_tous();
    let e = table_envies();
    assert forall|k: int| 0 <= k < i implies t[k].0 != t[i].0 by {
        assert(t[k] == t[k] && t[i] == t[i]);
    }
    lemme_chercher_trouve(t, i as nat, 0);
    assert forall|k: int| 0 <= k < e.len() implies e[k].0 != t[i].0 by {
        assert(e[k].0[0] != t[i].0[0]);
    }
    lemme_chercher_absent(e, t[i].0, 0);
    assert forall|k: int| 0 <= k < t.len() implies t[k].0 != e[j].0 by {
        assert(e[j].0[0] != t[k].0[0]);
    }
    lemme_chercher_absent(t, e[j].0, 0);
}

/// Loi : les entrées communes avec le tray (cacher, catalogue, quitter) ne
/// sont pas des envies : `commande_de` ne les rend pas.
pub proof fn loi_les_entrees_communes_ne_sont_pas_des_envies(i: int)
    requires
        0 <= i < ids_communs().len(),
    ensures
        chercher(table_envies(), ids_communs()[i], 0) == None::<Commande>,
        chercher(table_tous(), ids_communs()[i], 0) == None::<Commande>,
{
    lemme_identifiants();
    let e = table_envies();
    let t = table_tous();
    let c = ids_communs();
    assert forall|k: int| 0 <= k < e.len() implies e[k].0 != c[i] by {
        assert(e[k].0[0] != c[i][0]);
    }
    lemme_chercher_absent(e, c[i], 0);
    assert forall|k: int| 0 <= k < t.len() implies t[k].0 != c[i] by {
        assert(t[k].0[0] != c[i][0]);
    }
    lemme_chercher_absent(t, c[i], 0);
}

// ── Les lois du menu ────────────────────────────────────────────────────

/// Les entrées du personnage viennent, une à une, des lignes proposées de
/// la table ; et chaque ligne proposée y a son entrée.
proof fn lemme_entrees_perso(t: Seq<EnvieVue>, ou: Ou, jouables: Seq<Intention>, tenue: Option<Tenue>)
    ensures
        forall|k: int|
            #![trigger entrees_perso(t, ou, jouables, tenue)[k]]
            0 <= k < entrees_perso(t, ou, jouables, tenue).len() ==> exists|j: int|
                #![auto]
                0 <= j < t.len() && proposee(t[j], ou, jouables) && entrees_perso(t, ou, jouables, tenue)[k]
                    == entree_de(t[j], tenue),
        forall|j: int|
            #![trigger t[j]]
            0 <= j < t.len() && proposee(t[j], ou, jouables) ==> exists|k: int|
                #![auto]
                0 <= k < entrees_perso(t, ou, jouables, tenue).len() && entrees_perso(t, ou, jouables, tenue)[k]
                    == entree_de(t[j], tenue),
    decreases t.len(),
{
    if t.len() > 0 {
        let d = t.drop_last();
        lemme_entrees_perso(d, ou, jouables, tenue);
        let p = entrees_perso(t, ou, jouables, tenue);
        let q = entrees_perso(d, ou, jouables, tenue);
        let n = t.len() - 1;
        assert(t.last() == t[n]);
        assert forall|k: int| #![trigger p[k]] 0 <= k < p.len() implies exists|j: int|
            #![auto]
            0 <= j < t.len() && proposee(t[j], ou, jouables) && p[k] == entree_de(t[j], tenue) by {
            if k < q.len() {
                let j = choose|j: int|
                    #![auto]
                    0 <= j < d.len() && proposee(d[j], ou, jouables) && q[k] == entree_de(d[j], tenue);
                assert(d[j] == t[j]);
                assert(p[k] == q[k]);
            } else {
                assert(p[k] == entree_de(t[n], tenue));
            }
        }
        assert forall|j: int|
            #![trigger t[j]]
            0 <= j < t.len() && proposee(t[j], ou, jouables) implies exists|k: int|
            #![auto]
            0 <= k < p.len() && p[k] == entree_de(t[j], tenue) by {
            if j < n {
                assert(d[j] == t[j]);
                let k = choose|k: int| #![auto] 0 <= k < q.len() && q[k] == entree_de(d[j], tenue);
                assert(p[k] == q[k]);
            } else {
                assert(p[q.len() as int] == entree_de(t[n], tenue));
            }
        }
    }
}

/// Le menu découpé en ses quatre parties, et ce que chacune contient.
proof fn lemme_parties_du_menu(ou: Ou, jouables: Seq<Intention>, tenue: Option<Tenue>, presents: Seq<Option<Tenue>>)
    ensures
        ({
            let p = entrees_perso(table_envies(), ou, jouables, tenue);
            let d = debut_du_menu(ou, jouables, tenue);
            let m = menu(ou, jouables, tenue, presents);
            &&& d.len() == if p.len() == 0 { 0 } else { p.len() + 1 }
            &&& m.len() == d.len() + 12
            &&& forall|k: int| 0 <= k < p.len() ==> #[trigger] m[k] == p[k]
            &&& forall|k: int| 0 <= k < p.len() ==> (#[trigger] p[k]) is Entree
            &&& p.len() > 0 ==> m[p.len() as int] is Separateur
            &&& m[d.len() as int] == titre_tous()
            &&& forall|k: int| 0 <= k < 5 ==> #[trigger] m[d.len() + 1 + k] == entrees_tous(presents)[k]
            &&& forall|k: int| 0 <= k < 6 ==> #[trigger] m[d.len() + 6 + k] == fin_du_menu()[k]
        }),
{
    lemme_entrees_perso(table_envies(), ou, jouables, tenue);
    let p = entrees_perso(table_envies(), ou, jouables, tenue);
    let d = debut_du_menu(ou, jouables, tenue);
    let m = menu(ou, jouables, tenue, presents);
    let tt = entrees_tous(presents);
    let f = fin_du_menu();
    assert(tt.len() == 5);
    assert(f.len() == 6);
    assert forall|k: int| 0 <= k < p.len() implies (#[trigger] p[k]) is Entree by {
        let j = choose|j: int|
            #![auto]
            0 <= j < table_envies().len() && proposee(table_envies()[j], ou, jouables) && p[k]
                == entree_de(table_envies()[j], tenue);
    }
    assert forall|k: int| 0 <= k < p.len() implies #[trigger] m[k] == p[k] by {
        assert(d[k] == p[k]);
    }
    assert forall|k: int| 0 <= k < 5 implies #[trigger] m[d.len() + 1 + k] == tt[k] by {}
    assert forall|k: int| 0 <= k < 6 implies #[trigger] m[d.len() + 6 + k] == f[k] by {}
}

/// Loi : un menu ne commence ni ne finit par un séparateur, et n'en aligne
/// jamais deux — où que soit le personnage et quoi que sache son pack.
pub proof fn loi_aucun_separateur_mal_place(ou: Ou, jouables: Seq<Intention>, tenue: Option<Tenue>, presents: Seq<Option<Tenue>>)
    ensures
        menu(ou, jouables, tenue, presents).len() > 0,
        !(menu(ou, jouables, tenue, presents)[0] is Separateur),
        !(menu(ou, jouables, tenue, presents).last() is Separateur),
        forall|i: int|
            0 <= i < menu(ou, jouables, tenue, presents).len() - 1 ==> !((#[trigger] menu(
                ou,
                jouables,
                tenue,
                presents,
            )[i]) is Separateur && menu(ou, jouables, tenue, presents)[i + 1] is Separateur),
{
    lemme_parties_du_menu(ou, jouables, tenue, presents);
    let p = entrees_perso(table_envies(), ou, jouables, tenue);
    let d = debut_du_menu(ou, jouables, tenue);
    let m = menu(ou, jouables, tenue, presents);
    let n = d.len() as int;
    if p.len() > 0 {
        assert(m[0] == p[0]);
    }
    assert(m[n + 6 + 5] == fin_du_menu()[5]);
    assert forall|i: int| 0 <= i < m.len() - 1 implies !((#[trigger] m[i]) is Separateur && m[i + 1] is Separateur) by {
        if i < p.len() {
            assert(m[i] == p[i]);
        } else if i < n {
            assert(i + 1 == n);
        } else if i == n {
        } else if i < n + 6 {
            assert(m[n + 1 + (i - n - 1)] == entrees_tous(presents)[i - n - 1]);
        } else {
            assert(m[n + 6 + (i - n - 6)] == fin_du_menu()[i - n - 6]);
            assert(m[n + 6 + (i + 1 - n - 6)] == fin_du_menu()[i + 1 - n - 6]);
        }
    }
}

/// Loi : chaque entrée affichée est un identifiant connu — le menu ne
/// montre rien qu'un clic ne saurait ensuite reconnaître.
pub proof fn loi_chaque_entree_affichee_est_connue(
    ou: Ou,
    jouables: Seq<Intention>,
    tenue: Option<Tenue>,
    presents: Seq<Option<Tenue>>,
    i: int,
)
    requires
        0 <= i < menu(ou, jouables, tenue, presents).len(),
        menu(ou, jouables, tenue, presents)[i] is Entree,
    ensures
        ids_connus().contains(menu(ou, jouables, tenue, presents)[i]->id),
{
    lemme_parties_du_menu(ou, jouables, tenue, presents);
    lemme_identifiants();
    lemme_entrees_perso(table_envies(), ou, jouables, tenue);
    let p = entrees_perso(table_envies(), ou, jouables, tenue);
    let d = debut_du_menu(ou, jouables, tenue);
    let m = menu(ou, jouables, tenue, presents);
    let n = d.len() as int;
    let c = ids_connus();
    let ne = table_envies().len() as int;
    let nt = table_tous().len() as int;
    if i < p.len() {
        assert(m[i] == p[i]);
        let j = choose|j: int|
            #![auto]
            0 <= j < table_envies().len() && proposee(table_envies()[j], ou, jouables) && p[i]
                == entree_de(table_envies()[j], tenue);
        assert(c[j] == table_envies()[j].0);
    } else if i < n {
    } else if i == n {
    } else if i < n + 6 {
        let k = i - n - 1;
        assert(m[n + 1 + k] == entrees_tous(presents)[k]);
        assert(c[ne + k] == table_tous()[k].0);
    } else {
        let k = i - n - 6;
        assert(m[n + 6 + k] == fin_du_menu()[k]);
        if k == 1 {
            assert(c[ne + nt] == ids_communs()[0]);
        } else if k == 2 {
            assert(c[ne + nt + 1] == ids_communs()[1]);
        } else if k == 3 {
            assert(c[ne + nt + 2] == ids_communs()[2]);
        } else {
            assert(c[ne + nt + 3] == ids_communs()[3]);
        }
    }
}

/// Loi : « Cacher ce personnage » et « Cacher tous les personnages » sont
/// proposés partout, chacun sous un libellé qui dit lequel il est.
pub proof fn loi_les_deux_cacher_sont_toujours_proposes(
    ou: Ou,
    jouables: Seq<Intention>,
    tenue: Option<Tenue>,
    presents: Seq<Option<Tenue>>,
)
    ensures
        menu(ou, jouables, tenue, presents).contains(
            LigneVue::Entree { id: ID_P_CACHER_CE@, libelle: "Cacher ce personnage"@, coche: false },
        ),
        menu(ou, jouables, tenue, presents).contains(
            LigneVue::Entree { id: ID_P_CACHER@, libelle: "Cacher tous les personnages"@, coche: false },
        ),
{
    lemme_parties_du_menu(ou, jouables, tenue, presents);
    let d = debut_du_menu(ou, jouables, tenue);
    let m = menu(ou, jouables, tenue, presents);
    let n = d.len() as int;
    assert(m[n + 6 + 1] == fin_du_menu()[1]);
    assert(m[n + 6 + 2] == fin_du_menu()[2]);
}

/// Loi : une envie du personnage apparaît dans son menu si et seulement si
/// sa ligne la propose là où il est et que son pack sait la jouer — jamais
/// « Flâner » sur un mur, jamais « Redescendre » au plafond.
pub proof fn loi_une_envie_n_est_proposee_que_la_ou_elle_a_un_sens(
    ou: Ou,
    jouables: Seq<Intention>,
    tenue: Option<Tenue>,
    presents: Seq<Option<Tenue>>,
    k: int,
)
    requires
        0 <= k < table_envies().len(),
    ensures
        (exists|i: int|
            0 <= i < menu(ou, jouables, tenue, presents).len() && (#[trigger] menu(
                ou,
                jouables,
                tenue,
                presents,
            )[i]) is Entree && menu(ou, jouables, tenue, presents)[i]->id == table_envies()[k].0)
            <==> proposee(table_envies()[k], ou, jouables),
{
    lemme_parties_du_menu(ou, jouables, tenue, presents);
    lemme_identifiants();
    lemme_entrees_perso(table_envies(), ou, jouables, tenue);
    let e = table_envies();
    let p = entrees_perso(e, ou, jouables, tenue);
    let d = debut_du_menu(ou, jouables, tenue);
    let m = menu(ou, jouables, tenue, presents);
    let n = d.len() as int;
    if proposee(e[k], ou, jouables) {
        let x = choose|x: int| #![auto] 0 <= x < p.len() && p[x] == entree_de(e[k], tenue);
        assert(m[x] == p[x]);
    }
    if exists|i: int| 0 <= i < m.len() && (#[trigger] m[i]) is Entree && m[i]->id == e[k].0 {
        let i = choose|i: int| 0 <= i < m.len() && (#[trigger] m[i]) is Entree && m[i]->id == e[k].0;
        if i < p.len() {
            assert(m[i] == p[i]);
            let j = choose|j: int|
                #![auto]
                0 <= j < e.len() && proposee(e[j], ou, jouables) && p[i] == entree_de(e[j], tenue);
            assert(e[j] == e[j] && e[k] == e[k]);
            assert(j == k);
        } else if i < n {
        } else if i == n {
        } else if i < n + 6 {
            let y = i - n - 1;
            assert(m[n + 1 + y] == entrees_tous(presents)[y]);
            assert(table_tous()[y] == table_tous()[y]);
            assert(e[k].0[0] != table_tous()[y].0[0]);
        } else {
            let y = i - n - 6;
            assert(m[n + 6 + y] == fin_du_menu()[y]);
            assert(ids_communs()[0] == ids_communs()[0]);
            assert(ids_communs()[1] == ids_communs()[1]);
            assert(ids_communs()[2] == ids_communs()[2]);
            assert(ids_communs()[3] == ids_communs()[3]);
            assert(e[k].0[0] == 'p');
        }
    }
}

/// Ce que tient un personnage après une commande : `Tenir` la lui fait
/// tenir quoi qu'il tînt ; `Relacher` la lui fait lâcher s'il la tient ;
/// `Basculer` la lâche s'il la tient, la lui fait tenir sinon. Les autres
/// commandes ne touchent pas à ce qu'il tient.
pub open spec fn tenue_apres_spec(tenue: Option<Tenue>, c: Commande) -> Option<Tenue> {
    match c {
        Commande::Tenir(t) => Some(t),
        Commande::Relacher(t) => if tenue == Some(t) { None } else { tenue },
        Commande::Basculer(t) => if tenue == Some(t) { None } else { Some(t) },
        _ => tenue,
    }
}

/// Ce que tient un personnage après une commande : voir `tenue_apres_spec`.
pub fn tenue_apres(tenue: Option<Tenue>, c: Commande) -> (r: Option<Tenue>)
    ensures
        r == tenue_apres_spec(tenue, c),
{
    match c {
        Commande::Tenir(t) => Some(t),
        Commande::Relacher(t) => if tenue == Some(t) { None } else { tenue },
        Commande::Basculer(t) => if tenue == Some(t) { None } else { Some(t) },
        _ => tenue,
    }
}

/// Loi : « Tout le monde » relâche si et seulement si chacun la tient. Un
/// `Basculer(t)` pour tous devient `Relacher(t)` exactement quand il y a au
/// moins un présent et que chaque présent tient `t` — ce qui coche la ligne
/// — et `Tenir(t)` dès qu'un seul ne la tient pas ; les autres commandes
/// passent telles quelles.
pub proof fn loi_tout_le_monde_relache_si_et_seulement_si_chacun_la_tient(
    t: Tenue,
    presents: Seq<Option<Tenue>>,
    c: Commande,
)
    ensures
        resolue_pour_tous(Commande::Basculer(t), presents) == Commande::Relacher(t) <==> (presents.len() > 0
            && forall|i: int| 0 <= i < presents.len() ==> presents[i] == Some(t)),
        resolue_pour_tous(Commande::Basculer(t), presents) == Commande::Relacher(t)
            || resolue_pour_tous(Commande::Basculer(t), presents) == Commande::Tenir(t),
        (exists|i: int| 0 <= i < presents.len() && presents[i] != Some(t)) ==> resolue_pour_tous(
            Commande::Basculer(t),
            presents,
        ) == Commande::Tenir(t),
        presents.len() == 0 ==> resolue_pour_tous(Commande::Basculer(t), presents) == Commande::Tenir(t),
        !(c is Basculer) ==> resolue_pour_tous(c, presents) == c,
        (resolue_pour_tous(Commande::Basculer(t), presents) == Commande::Relacher(t)) == coche_tous(
            Commande::Basculer(t),
            presents,
        ),
{
}

/// Loi : cocher, décocher. Pour toute action `t`, `Basculer(t)` la lâche
/// s'il la tient et la lui fait tenir sinon — une seconde bascule la lui
/// fait lâcher ; `Tenir(t)` la lui fait tenir, quoi qu'il tînt ;
/// `Relacher(t)` la lui fait lâcher s'il la tient et ne change rien sinon ;
/// les autres commandes ne touchent pas à ce qu'il tient.
pub proof fn loi_basculer_est_une_bascule(t: Tenue, x: Option<Tenue>, c: Commande)
    ensures
        tenue_apres_spec(Some(t), Commande::Basculer(t)) == None::<Tenue>,
        x != Some(t) ==> tenue_apres_spec(x, Commande::Basculer(t)) == Some(t),
        x != Some(t) ==> tenue_apres_spec(tenue_apres_spec(x, Commande::Basculer(t)), Commande::Basculer(t))
            == None::<Tenue>,
        tenue_apres_spec(Some(t), Commande::Basculer(t)) != Some(t),
        tenue_apres_spec(x, Commande::Tenir(t)) == Some(t),
        tenue_apres_spec(Some(t), Commande::Relacher(t)) == None::<Tenue>,
        x != Some(t) ==> tenue_apres_spec(x, Commande::Relacher(t)) == x,
        !(c is Basculer) && !(c is Tenir) && !(c is Relacher) ==> tenue_apres_spec(x, c) == x,
{
}

} // verus!
