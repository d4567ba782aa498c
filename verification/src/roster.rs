//! La réconciliation du roster : ce qu'il faut faire pour que les
//! personnages présents à l'écran correspondent à la liste voulue.
//!
//! Fonction pure. Les deux listes sont des MULTI-ENSEMBLES de noms : leur
//! ordre n'a aucune importance, seules comptent les occurrences.
//!
//! Le plan rendu range les retraits avant les créations, et, dans chaque
//! groupe, les noms par ordre croissant de leurs octets — l'ordre de `str`.
//! Deux appels sur les mêmes multi-ensembles rendent donc exactement la même
//! liste.

use vstd::prelude::*;
use crate::texte::{egal, octets, lemme_octets_injectifs};

verus! {

/// Ce qu'il faut faire d'un nom pour rapprocher le présent du voulu.
#[derive(Debug, Clone, PartialEq, Eq)]
pub enum ActionRoster {
    /// Il manque un exemplaire de ce personnage : en créer un.
    Creer(String),
    /// Il y en a un de trop : en retirer un. Lequel est la décision de
    /// l'appelant, qui seul connaît l'ordre d'arrivée.
    RetirerUn(String),
}

/// La vue d'une action : le nom comme suite de caractères.
pub enum ActionVue {
    Creer(Seq<char>),
    RetirerUn(Seq<char>),
}

impl View for ActionRoster {
    type V = ActionVue;

    open spec fn view(&self) -> ActionVue {
        match self {
            ActionRoster::Creer(n) => ActionVue::Creer(n@),
            ActionRoster::RetirerUn(n) => ActionVue::RetirerUn(n@),
        }
    }
}

/// Le nom dont parle une action.
pub open spec fn nom_de(a: ActionVue) -> Seq<char> {
    match a {
        ActionVue::Creer(n) => n,
        ActionVue::RetirerUn(n) => n,
    }
}

/// Les noms d'une liste de `String`, comme suites de caractères.
pub open spec fn noms(s: Seq<String>) -> Seq<Seq<char>> {
    s.map_values(|x: String| x@)
}

/// Le nombre d'occurrences de `n` dans `s`.
pub open spec fn occurrences<T>(s: Seq<T>, n: T) -> nat
    decreases s.len(),
{
    if s.len() == 0 {
        0
    } else {
        occurrences(s.drop_last(), n) + if s.last() == n {
            1nat
        } else {
            0nat
        }
    }
}

/// `a - b` s'il est positif, zéro sinon.
pub open spec fn excedent(a: nat, b: nat) -> nat {
    if a > b {
        (a - b) as nat
    } else {
        0
    }
}

/// L'ordre de deux suites d'octets.
#[derive(Debug, Clone, Copy, PartialEq, Eq, Structural)]
pub enum Ordre {
    Avant,
    Egal,
    Apres,
}

/// L'ordre lexicographique des octets : celui de `Ord` sur `str`.
pub open spec fn ordre_octets(a: Seq<u8>, b: Seq<u8>) -> Ordre
    decreases a.len(),
{
    if a.len() == 0 {
        if b.len() == 0 {
            Ordre::Egal
        } else {
            Ordre::Avant
        }
    } else if b.len() == 0 {
        Ordre::Apres
    } else if a[0] < b[0] {
        Ordre::Avant
    } else if a[0] > b[0] {
        Ordre::Apres
    } else {
        ordre_octets(a.drop_first(), b.drop_first())
    }
}

/// L'ordre de deux noms, par leurs octets UTF-8.
pub open spec fn ordre_noms(a: Seq<char>, b: Seq<char>) -> Ordre {
    ordre_octets(octets(a), octets(b))
}

/// `a` ne vient pas après `b`.
pub open spec fn precede_ou_egal(a: Seq<char>, b: Seq<char>) -> bool {
    ordre_noms(a, b) != Ordre::Apres
}

/// Ce que `reconcilier(presents, voulus)` rend, décrit sans algorithme :
///   · les retraits d'abord, puis les créations ;
///   · pour chaque nom, autant de retraits qu'il y a d'exemplaires en trop,
///     autant de créations qu'il en manque ;
///   · dans chaque groupe, les noms en ordre croissant.
pub open spec fn plan_conforme(p: Seq<Seq<char>>, v: Seq<Seq<char>>, r: Seq<ActionVue>) -> bool {
    &&& forall|i: int, j: int|
        0 <= i < j < r.len() && (#[trigger] r[i]) is Creer ==> (#[trigger] r[j]) is Creer
    &&& forall|n: Seq<char>|
        #[trigger] occurrences(r, ActionVue::RetirerUn(n)) == excedent(
            occurrences(p, n),
            occurrences(v, n),
        )
    &&& forall|n: Seq<char>|
        #[trigger] occurrences(r, ActionVue::Creer(n)) == excedent(
            occurrences(v, n),
            occurrences(p, n),
        )
    &&& forall|i: int, j: int|
        0 <= i < j < r.len() && (#[trigger] r[i]) is RetirerUn && (#[trigger] r[j]) is RetirerUn
            ==> precede_ou_egal(nom_de(r[i]), nom_de(r[j]))
    &&& forall|i: int, j: int|
        0 <= i < j < r.len() && (#[trigger] r[i]) is Creer && (#[trigger] r[j]) is Creer
            ==> precede_ou_egal(nom_de(r[i]), nom_de(r[j]))
}

// ── L'ordre des octets ─────────────────────────────────────────────────

proof fn lemme_ordre_egal(a: Seq<u8>, b: Seq<u8>)
    ensures
        (ordre_octets(a, b) == Ordre::Egal) <==> (a == b),
    decreases a.len(),
{
    if a.len() == 0 && b.len() == 0 {
        assert(a =~= b);
    }
    if a.len() > 0 && b.len() > 0 && a[0] == b[0] {
        lemme_ordre_egal(a.drop_first(), b.drop_first());
        if a.drop_first() == b.drop_first() {
            assert forall|k: int| 0 <= k < a.len() implies a[k] == b[k] by {
                if k > 0 {
                    assert(a[k] == a.drop_first()[k - 1]);
                    assert(b[k] == b.drop_first()[k - 1]);
                }
            }
            assert(a =~= b);
        }
    }
}

proof fn lemme_ordre_symetrique(a: Seq<u8>, b: Seq<u8>)
    ensures
        (ordre_octets(a, b) == Ordre::Avant) <==> (ordre_octets(b, a) == Ordre::Apres),
    decreases a.len(),
{
    if a.len() > 0 && b.len() > 0 && a[0] == b[0] {
        lemme_ordre_symetrique(a.drop_first(), b.drop_first());
    }
}

proof fn lemme_ordre_transitif(a: Seq<u8>, b: Seq<u8>, c: Seq<u8>)
    requires
        ordre_octets(a, b) == Ordre::Avant,
        ordre_octets(b, c) == Ordre::Avant,
    ensures
        ordre_octets(a, c) == Ordre::Avant,
    decreases a.len(),
{
    if a.len() > 0 && b.len() > 0 && c.len() > 0 && a[0] == b[0] && b[0] == c[0] {
        lemme_ordre_transitif(a.drop_first(), b.drop_first(), c.drop_first());
    }
}

/// Deux noms distincts ne sont jamais « égaux » pour l'ordre.
proof fn lemme_ordre_noms_egal(a: Seq<char>, b: Seq<char>)
    ensures
        (ordre_noms(a, b) == Ordre::Egal) <==> (a == b),
{
    lemme_ordre_egal(octets(a), octets(b));
    lemme_octets_injectifs(a, b);
}

/// Compare deux tranches d'octets, dans l'ordre de `str`.
pub fn comparer_octets(a: &[u8], b: &[u8]) -> (o: Ordre)
    ensures
        o == ordre_octets(a@, b@),
{
    let mut i: usize = 0;
    assert(a@.skip(0) =~= a@);
    assert(b@.skip(0) =~= b@);
    while i < a.len() && i < b.len()
        invariant
            i <= a@.len(),
            i <= b@.len(),
            ordre_octets(a@, b@) == ordre_octets(a@.skip(i as int), b@.skip(i as int)),
        decreases a@.len() - i,
    {
        if a[i] < b[i] {
            return Ordre::Avant;
        }
        if a[i] > b[i] {
            return Ordre::Apres;
        }
        assert(a@.skip(i as int).drop_first() =~= a@.skip(i + 1));
        assert(b@.skip(i as int).drop_first() =~= b@.skip(i + 1));
        i = i + 1;
    }
    if i < a.len() {
        Ordre::Apres
    } else if i < b.len() {
        Ordre::Avant
    } else {
        Ordre::Egal
    }
}

// ── Les occurrences ─────────────────────────────────────────────────────

proof fn lemme_occurrences_push<T>(s: Seq<T>, x: T, y: T)
    ensures
        occurrences(s.push(x), y) == occurrences(s, y) + if x == y {
            1nat
        } else {
            0nat
        },
{
    assert(s.push(x).drop_last() =~= s);
}

proof fn lemme_occurrences_borne<T>(s: Seq<T>, y: T)
    ensures
        occurrences(s, y) <= s.len(),
    decreases s.len(),
{
    if s.len() > 0 {
        lemme_occurrences_borne(s.drop_last(), y);
    }
}

/// Un élément présent est compté au moins une fois ; un élément compté au
/// moins une fois est présent.
proof fn lemme_occurrences_presence<T>(s: Seq<T>, y: T)
    ensures
        (occurrences(s, y) > 0) <==> (exists|i: int| 0 <= i < s.len() && s[i] == y),
    decreases s.len(),
{
    if s.len() > 0 {
        lemme_occurrences_presence(s.drop_last(), y);
        if occurrences(s, y) > 0 {
            if s.last() != y {
                let i = choose|i: int| 0 <= i < s.drop_last().len() && s.drop_last()[i] == y;
                assert(s[i] == y);
            }
        } else {
            assert forall|i: int| 0 <= i < s.len() implies s[i] != y by {
                if i < s.len() - 1 {
                    assert(s.drop_last()[i] == s[i]);
                }
            }
        }
    }
}

/// Combien d'exemplaires de `nom` dans cette liste.
pub fn compte_de(liste: &[String], nom: &str) -> (c: usize)
    ensures
        c == occurrences(noms(liste@), nom@),
{
    let mut c: usize = 0;
    let mut i: usize = 0;
    while i < liste.len()
        invariant
            i <= liste@.len(),
            c == occurrences(noms(liste@).take(i as int), nom@),
            c <= i,
        decreases liste@.len() - i,
    {
        let ghost avant = noms(liste@).take(i as int);
        assert(noms(liste@).take(i + 1) =~= avant.push(liste@[i as int]@));
        proof {
            lemme_occurrences_push(avant, liste@[i as int]@, nom@);
        }
        if egal(liste[i].as_str(), nom) {
            c = c + 1;
        }
        i = i + 1;
    }
    assert(noms(liste@).take(i as int) =~= noms(liste@));
    c
}

// ── Les noms distincts, triés ───────────────────────────────────────────

/// Les noms sont strictement croissants.
pub open spec fn trie(s: Seq<String>) -> bool {
    forall|i: int, j: int|
        0 <= i < j < s.len() ==> ordre_noms(#[trigger] s[i]@, #[trigger] s[j]@) == Ordre::Avant
}

/// `n` est l'un des noms de `s`.
pub open spec fn contient(s: Seq<String>, n: Seq<char>) -> bool {
    exists|i: int| 0 <= i < s.len() && (#[trigger] s[i])@ == n
}

/// Ajoute `nom` à la liste triée `liste`, s'il n'y est pas déjà.
pub(crate) fn inserer_nom(liste: &mut Vec<String>, nom: &String)
    requires
        trie(old(liste)@),
    ensures
        trie(final(liste)@),
        contient(final(liste)@, nom@),
        forall|m: Seq<char>| contient(old(liste)@, m) ==> contient(final(liste)@, m),
        forall|m: Seq<char>| contient(final(liste)@, m) ==> contient(old(liste)@, m) || m == nom@,
{
    let mut i: usize = 0;
    while i < liste.len()
        invariant
            i <= liste@.len(),
            liste@ == old(liste)@,
            trie(liste@),
            forall|j: int| 0 <= j < i ==> ordre_noms((#[trigger] liste@[j])@, nom@) == Ordre::Avant,
        ensures
            i <= liste@.len(),
            liste@ == old(liste)@,
            trie(liste@),
            forall|j: int| 0 <= j < i ==> ordre_noms((#[trigger] liste@[j])@, nom@) == Ordre::Avant,
            i < liste@.len() ==> ordre_noms(liste@[i as int]@, nom@) == Ordre::Apres,
        decreases liste@.len() - i,
    {
        let o = comparer_octets(liste[i].as_str().as_bytes(), nom.as_str().as_bytes());
        assert(o == ordre_noms(liste@[i as int]@, nom@));
        if o == Ordre::Egal {
            proof {
                lemme_ordre_noms_egal(liste@[i as int]@, nom@);
            }
            assert(contient(liste@, nom@));
            return;
        }
        if o == Ordre::Apres {
            break;
        }
        i = i + 1;
    }
    let ghost ancien = liste@;
    // Ici, `liste[i]` (s'il existe) vient strictement après `nom`.
    proof {
        if i < ancien.len() {
            lemme_ordre_noms_egal(ancien[i as int]@, nom@);
            lemme_ordre_symetrique(octets(nom@), octets(ancien[i as int]@));
        }
    }
    let copie = nom.clone();
    liste.insert(i, copie);
    proof {
        let nouveau = liste@;
        assert(nouveau[i as int]@ == nom@);
        assert forall|a: int, b: int| 0 <= a < b < nouveau.len() implies ordre_noms(
            #[trigger] nouveau[a]@,
            #[trigger] nouveau[b]@,
        ) == Ordre::Avant by {
            if b < i {
            } else if b == i {
            } else if a < i {
                // a < i < b : a avant nom, nom avant ancien[i], ancien[i] <= ancien[b - 1].
                assert(ordre_noms(nom@, ancien[i as int]@) == Ordre::Avant);
                if b - 1 > i {
                    assert(ordre_noms(ancien[i as int]@, ancien[b - 1]@) == Ordre::Avant);
                    lemme_ordre_transitif(
                        octets(nom@),
                        octets(ancien[i as int]@),
                        octets(ancien[b - 1]@),
                    );
                }
                lemme_ordre_transitif(
                    octets(ancien[a]@),
                    octets(nom@),
                    octets(ancien[b - 1]@),
                );
            } else if a == i {
                assert(ordre_noms(nom@, ancien[i as int]@) == Ordre::Avant);
                if b - 1 > i {
                    assert(ordre_noms(ancien[i as int]@, ancien[b - 1]@) == Ordre::Avant);
                    lemme_ordre_transitif(
                        octets(nom@),
                        octets(ancien[i as int]@),
                        octets(ancien[b - 1]@),
                    );
                }
            } else {
                assert(ordre_noms(ancien[a - 1]@, ancien[b - 1]@) == Ordre::Avant);
            }
        }
        assert(contient(nouveau, nom@));
        assert forall|m: Seq<char>| contient(ancien, m) implies contient(nouveau, m) by {
            let k = choose|k: int| 0 <= k < ancien.len() && (#[trigger] ancien[k])@ == m;
            if k < i {
                assert(nouveau[k]@ == m);
            } else {
                assert(nouveau[k + 1]@ == m);
            }
        }
        assert forall|m: Seq<char>| contient(nouveau, m) implies contient(ancien, m) || m
            == nom@ by {
            let k = choose|k: int| 0 <= k < nouveau.len() && (#[trigger] nouveau[k])@ == m;
            if k < i {
                assert(ancien[k]@ == m);
            } else if k > i {
                assert(ancien[k - 1]@ == m);
            }
        }
    }
}

// ── L'émission du plan ──────────────────────────────────────────────────

/// Les vues d'une suite d'actions.
pub open spec fn vues(r: Seq<ActionRoster>) -> Seq<ActionVue> {
    r.map_values(|a: ActionRoster| a@)
}

/// L'action que demande un nom : un retrait, ou une création.
spec fn faire(retrait: bool, n: Seq<char>) -> ActionVue {
    if retrait {
        ActionVue::RetirerUn(n)
    } else {
        ActionVue::Creer(n)
    }
}

/// Combien d'actions de ce genre il faut pour ce nom.
spec fn besoin(retrait: bool, p: Seq<Seq<char>>, v: Seq<Seq<char>>, n: Seq<char>) -> nat {
    if retrait {
        excedent(occurrences(p, n), occurrences(v, n))
    } else {
        excedent(occurrences(v, n), occurrences(p, n))
    }
}

/// Un bloc d'actions d'un seul genre, au bon compte, en ordre croissant.
spec fn bloc_conforme(p: Seq<Seq<char>>, v: Seq<Seq<char>>, b: Seq<ActionVue>, retrait: bool) -> bool {
    &&& forall|i: int| 0 <= i < b.len() ==> #[trigger] b[i] == faire(retrait, nom_de(b[i]))
    &&& forall|n: Seq<char>| #[trigger] occurrences(b, faire(retrait, n)) == besoin(retrait, p, v, n)
    &&& forall|i: int, j: int|
        0 <= i < j < b.len() ==> precede_ou_egal(nom_de(#[trigger] b[i]), nom_de(#[trigger] b[j]))
}

proof fn lemme_vues_push(s: Seq<ActionRoster>, a: ActionRoster)
    ensures
        vues(s.push(a)) == vues(s).push(a@),
{
    assert(vues(s.push(a)) =~= vues(s).push(a@));
}

proof fn lemme_precede_reflexif(a: Seq<char>)
    ensures
        precede_ou_egal(a, a),
{
    lemme_ordre_noms_egal(a, a);
}

proof fn lemme_precede_puis_avant(a: Seq<char>, b: Seq<char>, c: Seq<char>)
    requires
        precede_ou_egal(a, b),
        ordre_noms(b, c) == Ordre::Avant,
    ensures
        ordre_noms(a, c) == Ordre::Avant,
{
    lemme_ordre_noms_egal(a, b);
    if ordre_noms(a, b) == Ordre::Avant {
        lemme_ordre_transitif(octets(a), octets(b), octets(c));
    }
}

proof fn lemme_occurrences_concat<T>(a: Seq<T>, b: Seq<T>, x: T)
    ensures
        occurrences(a + b, x) == occurrences(a, x) + occurrences(b, x),
    decreases b.len(),
{
    if b.len() == 0 {
        assert(a + b =~= a);
    } else {
        assert((a + b).drop_last() =~= a + b.drop_last());
        lemme_occurrences_concat(a, b.drop_last(), x);
    }
}

proof fn lemme_occurrences_absent<T>(s: Seq<T>, x: T)
    requires
        forall|i: int| 0 <= i < s.len() ==> s[i] != x,
    ensures
        occurrences(s, x) == 0,
{
    lemme_occurrences_presence(s, x);
}

/// Un nom de la liste des présents ou des voulus est dans la liste triée.
spec fn couvre(liste: Seq<String>, l: Seq<String>) -> bool {
    forall|k: int| 0 <= k < l.len() ==> contient(liste, (#[trigger] l[k])@)
}

proof fn lemme_hors_liste_absent(liste: Seq<String>, l: Seq<String>, n: Seq<char>)
    requires
        couvre(liste, l),
        !contient(liste, n),
    ensures
        occurrences(noms(l), n) == 0,
{
    assert forall|i: int| 0 <= i < noms(l).len() implies noms(l)[i] != n by {
        assert(contient(liste, l[i]@));
    }
    lemme_occurrences_absent(noms(l), n);
}

/// Ajoute à `actions` le bloc des retraits (ou des créations) : pour chaque
/// nom de `liste`, dans l'ordre, autant d'actions que son solde en demande.
fn emettre(
    liste: &Vec<String>,
    presents: &[String],
    voulus: &[String],
    actions: &mut Vec<ActionRoster>,
    retrait: bool,
)
    requires
        trie(liste@),
        couvre(liste@, presents@),
        couvre(liste@, voulus@),
    ensures
        final(actions)@.len() >= old(actions)@.len(),
        vues(final(actions)@).subrange(0, old(actions)@.len() as int) == vues(old(actions)@),
        bloc_conforme(
            noms(presents@),
            noms(voulus@),
            vues(final(actions)@).skip(old(actions)@.len() as int),
            retrait,
        ),
{
    let ghost p = noms(presents@);
    let ghost v = noms(voulus@);
    let ghost l0 = actions@.len() as int;
    let ghost debut = vues(actions@);
    assert(vues(actions@).skip(l0).len() == 0);
    let mut k: usize = 0;
    while k < liste.len()
        invariant
            trie(liste@),
            couvre(liste@, presents@),
            couvre(liste@, voulus@),
            p == noms(presents@),
            v == noms(voulus@),
            k <= liste@.len(),
            0 <= l0 <= actions@.len(),
            vues(actions@).subrange(0, l0) == debut,
            ({
                let b = vues(actions@).skip(l0);
                &&& forall|i: int| 0 <= i < b.len() ==> #[trigger] b[i] == faire(retrait, nom_de(b[i]))
                &&& forall|j: int|
                    0 <= j < k ==> #[trigger] occurrences(b, faire(retrait, liste@[j]@)) == besoin(
                        retrait,
                        p,
                        v,
                        liste@[j]@,
                    )
                &&& forall|j: int|
                    k <= j < liste@.len() ==> #[trigger] occurrences(b, faire(retrait, liste@[j]@))
                        == 0
                &&& forall|m: Seq<char>|
                    !contient(liste@, m) ==> #[trigger] occurrences(b, faire(retrait, m)) == 0
                &&& forall|i: int, j: int|
                    0 <= i < j < b.len() ==> precede_ou_egal(
                        nom_de(#[trigger] b[i]),
                        nom_de(#[trigger] b[j]),
                    )
                &&& k < liste@.len() ==> forall|i: int|
                    0 <= i < b.len() ==> precede_ou_egal(nom_de(#[trigger] b[i]), liste@[k as int]@)
            }),
        decreases liste@.len() - k,
    {
        let nom = &liste[k];
        let np = compte_de(presents, nom.as_str());
        let nv = compte_de(voulus, nom.as_str());
        let besoin_ici: usize = if retrait {
            if np > nv {
                np - nv
            } else {
                0
            }
        } else {
            if nv > np {
                nv - np
            } else {
                0
            }
        };
        assert(besoin_ici == besoin(retrait, p, v, liste@[k as int]@));
        // Les noms de la liste sont deux à deux distincts.
        proof {
            assert forall|j: int| 0 <= j < liste@.len() && j != k implies liste@[j]@
                != liste@[k as int]@ by {
                if j < k {
                    lemme_ordre_noms_egal(liste@[j]@, liste@[k as int]@);
                } else {
                    lemme_ordre_noms_egal(liste@[k as int]@, liste@[j]@);
                }
            }
        }
        let mut c: usize = 0;
        while c < besoin_ici
            invariant
                trie(liste@),
                k < liste@.len(),
                nom@ == liste@[k as int]@,
                c <= besoin_ici,
                0 <= l0 <= actions@.len(),
                vues(actions@).subrange(0, l0) == debut,
                forall|j: int| 0 <= j < liste@.len() && j != k ==> liste@[j]@ != liste@[k as int]@,
                contient(liste@, liste@[k as int]@),
                ({
                    let b = vues(actions@).skip(l0);
                    &&& forall|i: int|
                        0 <= i < b.len() ==> #[trigger] b[i] == faire(retrait, nom_de(b[i]))
                    &&& forall|j: int|
                        0 <= j < k ==> #[trigger] occurrences(b, faire(retrait, liste@[j]@))
                            == besoin(retrait, p, v, liste@[j]@)
                    &&& occurrences(b, faire(retrait, liste@[k as int]@)) == c
                    &&& forall|j: int|
                        k < j < liste@.len() ==> #[trigger] occurrences(
                            b,
                            faire(retrait, liste@[j]@),
                        ) == 0
                    &&& forall|m: Seq<char>|
                        !contient(liste@, m) ==> #[trigger] occurrences(b, faire(retrait, m)) == 0
                    &&& forall|i: int, j: int|
                        0 <= i < j < b.len() ==> precede_ou_egal(
                            nom_de(#[trigger] b[i]),
                            nom_de(#[trigger] b[j]),
                        )
                    &&& forall|i: int|
                        0 <= i < b.len() ==> precede_ou_egal(
                            nom_de(#[trigger] b[i]),
                            liste@[k as int]@,
                        )
                }),
            decreases besoin_ici - c,
        {
            let ghost avant = actions@;
            let ghost b0 = vues(avant).skip(l0);
            let a = if retrait {
                ActionRoster::RetirerUn(nom.clone())
            } else {
                ActionRoster::Creer(nom.clone())
            };
            assert(a@ == faire(retrait, liste@[k as int]@));
            actions.push(a);
            proof {
                lemme_vues_push(avant, a);
                assert(vues(actions@).skip(l0) =~= b0.push(a@));
                assert(vues(actions@).subrange(0, l0) =~= vues(avant).subrange(0, l0));
                let b = vues(actions@).skip(l0);
                let x = faire(retrait, liste@[k as int]@);
                lemme_precede_reflexif(liste@[k as int]@);
                assert forall|y: ActionVue| #[trigger] occurrences(b, y) == occurrences(b0, y) + if x
                    == y {
                    1nat
                } else {
                    0nat
                } by {
                    lemme_occurrences_push(b0, x, y);
                }
                assert forall|i: int, j: int| 0 <= i < j < b.len() implies precede_ou_egal(
                    nom_de(#[trigger] b[i]),
                    nom_de(#[trigger] b[j]),
                ) by {
                    if j == b.len() - 1 {
                        assert(b[i] == b0[i]);
                    } else {
                        assert(b[i] == b0[i]);
                        assert(b[j] == b0[j]);
                    }
                }
                assert forall|m: Seq<char>| !contient(liste@, m) implies #[trigger] occurrences(
                    b,
                    faire(retrait, m),
                ) == 0 by {
                    assert(faire(retrait, m) != x);
                }
                assert forall|j: int| 0 <= j < k implies #[trigger] occurrences(
                    b,
                    faire(retrait, liste@[j]@),
                ) == besoin(retrait, p, v, liste@[j]@) by {
                    assert(faire(retrait, liste@[j]@) != x);
                }
                assert forall|j: int| k < j < liste@.len() implies #[trigger] occurrences(
                    b,
                    faire(retrait, liste@[j]@),
                ) == 0 by {
                    assert(faire(retrait, liste@[j]@) != x);
                }
            }
            c = c + 1;
        }
        proof {
            let b = vues(actions@).skip(l0);
            if k + 1 < liste@.len() {
                assert(ordre_noms(liste@[k as int]@, liste@[k + 1]@) == Ordre::Avant);
                assert forall|i: int| 0 <= i < b.len() implies precede_ou_egal(
                    nom_de(#[trigger] b[i]),
                    liste@[k + 1]@,
                ) by {
                    lemme_precede_puis_avant(nom_de(b[i]), liste@[k as int]@, liste@[k + 1]@);
                }
            }
        }
        k = k + 1;
    }
    proof {
        let b = vues(actions@).skip(l0);
        assert forall|n: Seq<char>| #[trigger] occurrences(b, faire(retrait, n)) == besoin(
            retrait,
            p,
            v,
            n,
        ) by {
            if contient(liste@, n) {
                let j = choose|j: int| 0 <= j < liste@.len() && (#[trigger] liste@[j])@ == n;
                assert(occurrences(b, faire(retrait, liste@[j]@)) == besoin(
                    retrait,
                    p,
                    v,
                    liste@[j]@,
                ));
            } else {
                lemme_hors_liste_absent(liste@, presents@, n);
                lemme_hors_liste_absent(liste@, voulus@, n);
            }
        }
    }
}

/// Ajoute à `liste` les noms de `l`.
fn inserer_tous(liste: &mut Vec<String>, l: &[String])
    requires
        trie(old(liste)@),
    ensures
        trie(final(liste)@),
        couvre(final(liste)@, l@),
        forall|m: Seq<char>| contient(old(liste)@, m) ==> contient(final(liste)@, m),
{
    let ghost debut = liste@;
    let mut k: usize = 0;
    while k < l.len()
        invariant
            k <= l@.len(),
            trie(liste@),
            forall|j: int| 0 <= j < k ==> contient(liste@, (#[trigger] l@[j])@),
            forall|m: Seq<char>| contient(debut, m) ==> contient(liste@, m),
        decreases l@.len() - k,
    {
        inserer_nom(liste, &l[k]);
        k = k + 1;
    }
}

proof fn lemme_bloc_d_un_seul_genre(b: Seq<ActionVue>, retrait: bool, n: Seq<char>)
    requires
        forall|i: int| 0 <= i < b.len() ==> #[trigger] b[i] == faire(retrait, nom_de(b[i])),
    ensures
        occurrences(b, faire(!retrait, n)) == 0,
{
    assert forall|i: int| 0 <= i < b.len() implies b[i] != faire(!retrait, n) by {
        assert(b[i] == faire(retrait, nom_de(b[i])));
    }
    lemme_occurrences_absent(b, faire(!retrait, n));
}

/// Ce qu'il faut faire pour passer de `presents` à `voulus`.
///
/// L'ordre des deux listes n'a aucune importance : ce sont des
/// multi-ensembles. Les retraits sont rendus avant les créations, pour ne
/// jamais faire exister brièvement un personnage de plus.
pub fn reconcilier(presents: &[String], voulus: &[String]) -> (r: Vec<ActionRoster>)
    ensures
        plan_conforme(noms(presents@), noms(voulus@), vues(r@)),
{
    let mut liste: Vec<String> = Vec::new();
    inserer_tous(&mut liste, presents);
    inserer_tous(&mut liste, voulus);
    assert(couvre(liste@, presents@)) by {
        assert forall|k: int| 0 <= k < presents@.len() implies contient(
            liste@,
            (#[trigger] presents@[k])@,
        ) by {}
    }
    let mut actions: Vec<ActionRoster> = Vec::new();
    emettre(&liste, presents, voulus, &mut actions, true);
    let ghost nr = actions@.len() as int;
    let ghost retraits = vues(actions@);
    assert(retraits.skip(0) =~= retraits);
    emettre(&liste, presents, voulus, &mut actions, false);
    proof {
        let r = vues(actions@);
        let creations = r.skip(nr);
        let p = noms(presents@);
        let v = noms(voulus@);
        assert(r =~= retraits + creations);
        assert forall|i: int| 0 <= i < nr implies #[trigger] r[i] is RetirerUn by {
            assert(retraits[i] == faire(true, nom_de(retraits[i])));
        }
        assert forall|i: int| nr <= i < r.len() implies #[trigger] r[i] is Creer by {
            assert(creations[i - nr] == faire(false, nom_de(creations[i - nr])));
        }
        assert forall|n: Seq<char>| #[trigger] occurrences(r, ActionVue::RetirerUn(n)) == excedent(
            occurrences(p, n),
            occurrences(v, n),
        ) by {
            lemme_occurrences_concat(retraits, creations, ActionVue::RetirerUn(n));
            lemme_bloc_d_un_seul_genre(creations, false, n);
            assert(occurrences(retraits, faire(true, n)) == besoin(true, p, v, n));
        }
        assert forall|n: Seq<char>| #[trigger] occurrences(r, ActionVue::Creer(n)) == excedent(
            occurrences(v, n),
            occurrences(p, n),
        ) by {
            lemme_occurrences_concat(retraits, creations, ActionVue::Creer(n));
            lemme_bloc_d_un_seul_genre(retraits, true, n);
            assert(occurrences(creations, faire(false, n)) == besoin(false, p, v, n));
        }
        assert forall|i: int, j: int|
            0 <= i < j < r.len() && (#[trigger] r[i]) is RetirerUn && (#[trigger] r[j]) is RetirerUn
            implies precede_ou_egal(nom_de(r[i]), nom_de(r[j])) by {
            assert(retraits[i] == r[i]);
            assert(retraits[j] == r[j]);
        }
        assert forall|i: int, j: int|
            0 <= i < j < r.len() && (#[trigger] r[i]) is Creer && (#[trigger] r[j]) is Creer
            implies precede_ou_egal(nom_de(r[i]), nom_de(r[j])) by {
            assert(creations[i - nr] == r[i]);
            assert(creations[j - nr] == r[j]);
        }
    }
    actions
}

// ── Les lois du plan ────────────────────────────────────────────────────

/// Loi : appliquer le plan aux présents donne exactement les voulus, nom par
/// nom — et le plan ne retire jamais un exemplaire qui n'existe pas.
pub proof fn loi_le_plan_rejoint_le_voulu(p: Seq<Seq<char>>, v: Seq<Seq<char>>, r: Seq<ActionVue>)
    requires
        plan_conforme(p, v, r),
    ensures
        forall|n: Seq<char>|
            occurrences(p, n) + #[trigger] occurrences(r, ActionVue::Creer(n)) == occurrences(v, n)
                + occurrences(r, ActionVue::RetirerUn(n)),
        forall|n: Seq<char>| #[trigger] occurrences(r, ActionVue::RetirerUn(n)) <= occurrences(p, n),
{
    assert forall|n: Seq<char>|
        occurrences(p, n) + #[trigger] occurrences(r, ActionVue::Creer(n)) == occurrences(v, n)
            + occurrences(r, ActionVue::RetirerUn(n)) by {
        assert(occurrences(r, ActionVue::RetirerUn(n)) == excedent(
            occurrences(p, n),
            occurrences(v, n),
        ));
    }
    assert forall|n: Seq<char>| #[trigger] occurrences(r, ActionVue::RetirerUn(n)) <= occurrences(
        p,
        n,
    ) by {}
}

/// Loi : quand les présents et les voulus ont les mêmes comptes, il n'y a
/// rien à faire.
pub proof fn loi_rien_a_faire_quand_tout_concorde(p: Seq<Seq<char>>, v: Seq<Seq<char>>, r: Seq<ActionVue>)
    requires
        plan_conforme(p, v, r),
        forall|n: Seq<char>| #[trigger] occurrences(p, n) == occurrences(v, n),
    ensures
        r.len() == 0,
{
    if r.len() > 0 {
        let a = r[0];
        lemme_occurrences_presence(r, a);
        let n = nom_de(a);
        assert(occurrences(p, n) == occurrences(v, n));
        match a {
            ActionVue::RetirerUn(m) => {
                assert(occurrences(r, ActionVue::RetirerUn(m)) == 0);
            },
            ActionVue::Creer(m) => {
                assert(occurrences(r, ActionVue::Creer(m)) == 0);
            },
        }
    }
}

/// L'ordre des actions d'un plan : les retraits d'abord, puis, dans chaque
/// genre, l'ordre des noms.
pub open spec fn avant_ou_egal(a: ActionVue, b: ActionVue) -> bool {
    match (a, b) {
        (ActionVue::RetirerUn(x), ActionVue::RetirerUn(y)) => precede_ou_egal(x, y),
        (ActionVue::Creer(x), ActionVue::Creer(y)) => precede_ou_egal(x, y),
        (ActionVue::RetirerUn(_), ActionVue::Creer(_)) => true,
        (ActionVue::Creer(_), ActionVue::RetirerUn(_)) => false,
    }
}

spec fn actions_triees(r: Seq<ActionVue>) -> bool {
    forall|i: int, j: int| 0 <= i < j < r.len() ==> avant_ou_egal(#[trigger] r[i], #[trigger] r[j])
}

proof fn lemme_plan_trie(p: Seq<Seq<char>>, v: Seq<Seq<char>>, r: Seq<ActionVue>)
    requires
        plan_conforme(p, v, r),
    ensures
        actions_triees(r),
{
    assert forall|i: int, j: int| 0 <= i < j < r.len() implies avant_ou_egal(
        #[trigger] r[i],
        #[trigger] r[j],
    ) by {
        if r[i] is Creer {
            assert(r[j] is Creer);
        }
    }
}

proof fn lemme_avant_ou_egal_antisymetrique(a: ActionVue, b: ActionVue)
    requires
        avant_ou_egal(a, b),
        avant_ou_egal(b, a),
    ensures
        a == b,
{
    let x = nom_de(a);
    let y = nom_de(b);
    lemme_ordre_symetrique(octets(x), octets(y));
    lemme_ordre_noms_egal(x, y);
}

proof fn lemme_occurrences_premier<T>(s: Seq<T>, x: T)
    requires
        s.len() > 0,
    ensures
        occurrences(s, x) == occurrences(s.drop_first(), x) + if s[0] == x {
            1nat
        } else {
            0nat
        },
{
    let t = seq![s[0]];
    assert(s =~= t + s.drop_first());
    lemme_occurrences_concat(t, s.drop_first(), x);
    assert(t.drop_last() =~= Seq::<T>::empty());
    assert(occurrences(t.drop_last(), x) == 0);
    assert(occurrences(t, x) == if s[0] == x {
        1nat
    } else {
        0nat
    });
}

/// Deux suites triées qui comptent les mêmes actions sont égales.
proof fn lemme_unicite(r1: Seq<ActionVue>, r2: Seq<ActionVue>)
    requires
        actions_triees(r1),
        actions_triees(r2),
        forall|a: ActionVue| #[trigger] occurrences(r1, a) == occurrences(r2, a),
    ensures
        r1 == r2,
    decreases r1.len(),
{
    if r1.len() == 0 {
        if r2.len() > 0 {
            lemme_occurrences_presence(r2, r2[0]);
            lemme_occurrences_presence(r1, r2[0]);
        }
        assert(r1 =~= r2);
    } else if r2.len() == 0 {
        lemme_occurrences_presence(r1, r1[0]);
        lemme_occurrences_presence(r2, r1[0]);
    } else {
        let a = r1[0];
        let b = r2[0];
        lemme_occurrences_presence(r1, a);
        lemme_occurrences_presence(r2, b);
        assert(occurrences(r1, a) > 0);
        assert(occurrences(r2, b) > 0);
        assert(occurrences(r2, a) > 0);
        assert(occurrences(r1, b) > 0);
        lemme_occurrences_presence(r1, b);
        lemme_occurrences_presence(r2, a);
        let j = choose|j: int| 0 <= j < r1.len() && r1[j] == b;
        let k = choose|k: int| 0 <= k < r2.len() && r2[k] == a;
        if j > 0 {
            assert(avant_ou_egal(r1[0], r1[j]));
        }
        if k > 0 {
            assert(avant_ou_egal(r2[0], r2[k]));
        }
        if j == 0 {
        } else {
            if k == 0 {
            } else {
                lemme_avant_ou_egal_antisymetrique(a, b);
            }
        }
        assert(a == b);
        let q1 = r1.drop_first();
        let q2 = r2.drop_first();
        assert forall|x: ActionVue| #[trigger] occurrences(q1, x) == occurrences(q2, x) by {
            lemme_occurrences_premier(r1, x);
            lemme_occurrences_premier(r2, x);
        }
        assert forall|i: int, j: int| 0 <= i < j < q1.len() implies avant_ou_egal(
            #[trigger] q1[i],
            #[trigger] q1[j],
        ) by {
            assert(avant_ou_egal(r1[i + 1], r1[j + 1]));
        }
        assert forall|i: int, j: int| 0 <= i < j < q2.len() implies avant_ou_egal(
            #[trigger] q2[i],
            #[trigger] q2[j],
        ) by {
            assert(avant_ou_egal(r2[i + 1], r2[j + 1]));
        }
        lemme_unicite(q1, q2);
        assert(r1 =~= r2) by {
            assert forall|i: int| 0 <= i < r1.len() implies r1[i] == r2[i] by {
                if i > 0 {
                    assert(r1[i] == q1[i - 1]);
                    assert(r2[i] == q2[i - 1]);
                }
            }
        }
    }
}

/// Loi : le plan ne dépend que des multi-ensembles. Deux listes de présents
/// qui comptent les mêmes noms, et deux listes de voulus de même, donnent le
/// même plan, quel que soit l'ordre où les noms sont écrits.
pub proof fn loi_l_ordre_des_listes_est_indifferent(
    p1: Seq<Seq<char>>,
    v1: Seq<Seq<char>>,
    r1: Seq<ActionVue>,
    p2: Seq<Seq<char>>,
    v2: Seq<Seq<char>>,
    r2: Seq<ActionVue>,
)
    requires
        plan_conforme(p1, v1, r1),
        plan_conforme(p2, v2, r2),
        forall|n: Seq<char>| #[trigger] occurrences(p1, n) == occurrences(p2, n),
        forall|n: Seq<char>| #[trigger] occurrences(v1, n) == occurrences(v2, n),
    ensures
        r1 == r2,
{
    lemme_plan_trie(p1, v1, r1);
    lemme_plan_trie(p2, v2, r2);
    assert forall|a: ActionVue| #[trigger] occurrences(r1, a) == occurrences(r2, a) by {
        let n = nom_de(a);
        assert(occurrences(p1, n) == occurrences(p2, n));
        assert(occurrences(v1, n) == occurrences(v2, n));
        match a {
            ActionVue::RetirerUn(m) => {
                assert(occurrences(r1, ActionVue::RetirerUn(m)) == occurrences(
                    r2,
                    ActionVue::RetirerUn(m),
                ));
            },
            ActionVue::Creer(m) => {
                assert(occurrences(r1, ActionVue::Creer(m)) == occurrences(r2, ActionVue::Creer(m)));
            },
        }
    }
    lemme_unicite(r1, r2);
}

} // verus!
