//! Les petites opérations sur le texte dont le reste de la bibliothèque a
//! besoin : comparer deux chaînes, tester un préfixe, écrire un entier en
//! décimal.
//!
//! Les comparaisons se font sur les OCTETS UTF-8, comme celles de `str` dans
//! la bibliothèque standard ; l'égalité des octets équivaut à celle des
//! caractères, parce que l'encodage UTF-8 est injectif.

use vstd::prelude::*;
use vstd::utf8::encode_utf8;
use vstd::utf8::decode_utf8;
use vstd::utf8::encode_utf8_decode_utf8;

verus! {

/// Les octets UTF-8 d'une suite de caractères.
pub open spec fn octets(s: Seq<char>) -> Seq<u8> {
    encode_utf8(s)
}

/// Deux suites de caractères ont les mêmes octets si et seulement si elles
/// sont égales.
pub proof fn lemme_octets_injectifs(a: Seq<char>, b: Seq<char>)
    ensures
        (octets(a) == octets(b)) <==> (a == b),
{
    encode_utf8_decode_utf8(a);
    encode_utf8_decode_utf8(b);
}

/// Compare deux tranches d'octets.
pub fn octets_egaux(a: &[u8], b: &[u8]) -> (r: bool)
    ensures
        r == (a@ == b@),
{
    if a.len() != b.len() {
        return false;
    }
    let mut i: usize = 0;
    while i < a.len()
        invariant
            a@.len() == b@.len(),
            i <= a@.len(),
            a@.subrange(0, i as int) == b@.subrange(0, i as int),
        decreases a@.len() - i,
    {
        if a[i] != b[i] {
            assert(a@[i as int] != b@[i as int]);
            return false;
        }
        assert(a@.subrange(0, i + 1) =~= a@.subrange(0, i as int).push(a@[i as int]));
        assert(b@.subrange(0, i + 1) =~= b@.subrange(0, i as int).push(b@[i as int]));
        i = i + 1;
    }
    assert(a@ =~= a@.subrange(0, i as int));
    assert(b@ =~= b@.subrange(0, i as int));
    true
}

/// `a == b`, pour deux `&str`.
pub fn egal(a: &str, b: &str) -> (r: bool)
    ensures
        r == (a@ == b@),
{
    let r = octets_egaux(a.as_bytes(), b.as_bytes());
    proof {
        lemme_octets_injectifs(a@, b@);
    }
    r
}

/// `s` commence-t-elle par `prefixe` ? Au sens de `str::starts_with` : sur
/// les octets.
pub fn commence_par(s: &str, prefixe: &str) -> (r: bool)
    ensures
        r == (octets(prefixe@).len() <= octets(s@).len() && octets(s@).subrange(
            0,
            octets(prefixe@).len() as int,
        ) == octets(prefixe@)),
{
    let a = s.as_bytes();
    let p = prefixe.as_bytes();
    if p.len() > a.len() {
        return false;
    }
    let mut i: usize = 0;
    while i < p.len()
        invariant
            a@ == octets(s@),
            p@ == octets(prefixe@),
            p@.len() <= a@.len(),
            i <= p@.len(),
            a@.subrange(0, i as int) == p@.subrange(0, i as int),
        decreases p@.len() - i,
    {
        if a[i] != p[i] {
            assert(a@.subrange(0, p@.len() as int)[i as int] != p@[i as int]);
            assert(a@.subrange(0, p@.len() as int) != p@);
            return false;
        }
        assert(a@.subrange(0, i + 1) =~= a@.subrange(0, i as int).push(a@[i as int]));
        assert(p@.subrange(0, i + 1) =~= p@.subrange(0, i as int).push(p@[i as int]));
        i = i + 1;
    }
    assert(p@ =~= p@.subrange(0, i as int));
    true
}

/// Ajoute un caractère à la fin d'une chaîne.
///
/// Appelle `String::push`, dont la documentation dit qu'elle ajoute le
/// caractère donné à la fin de la chaîne ; c'est ce que dit le contrat.
#[verifier::external_body]
pub(crate) fn pousser_car(s: &mut String, c: char)
    ensures
        final(s)@ == old(s)@.push(c),
{
    s.push(c)
}

/// Le chiffre décimal `d`, de 0 à 9.
pub open spec fn chiffre(d: nat) -> char {
    ((d % 10) + 48) as char
}

/// L'écriture décimale d'un entier naturel, sans zéro en tête : « 0 » pour
/// zéro.
pub open spec fn decimal(n: nat) -> Seq<char>
    decreases n,
{
    if n < 10 {
        seq![chiffre(n)]
    } else {
        decimal(n / 10).push(chiffre(n % 10))
    }
}

/// L'écriture décimale d'un entier relatif : un `-` devant les négatifs.
pub open spec fn decimal_signe(n: int) -> Seq<char> {
    if n < 0 {
        seq!['-'] + decimal((-n) as nat)
    } else {
        decimal(n as nat)
    }
}

/// Écrit `n` en décimal à la fin de `s`.
pub fn ecrire_decimal(s: &mut String, n: u64)
    ensures
        final(s)@ == old(s)@ + decimal(n as nat),
    decreases n,
{
    let ghost debut = s@;
    if n >= 10 {
        ecrire_decimal(s, n / 10);
    }
    let c = ((n % 10) as u8 + 48) as char;
    assert(c == chiffre(n as nat)) by {
        assert((n % 10) as u8 + 48 < 58);
    }
    pousser_car(s, c);
    proof {
        if n >= 10 {
            assert(decimal(n as nat) == decimal((n / 10) as nat).push(chiffre((n % 10) as nat)));
            assert(chiffre((n % 10) as nat) == chiffre(n as nat));
            assert(s@ =~= debut + decimal(n as nat));
        } else {
            assert(s@ =~= debut + decimal(n as nat));
        }
    }
}

/// Écrit `n` en décimal, signe compris, à la fin de `s`.
pub fn ecrire_entier(s: &mut String, n: i64)
    ensures
        final(s)@ == old(s)@ + decimal_signe(n as int),
{
    let ghost debut = s@;
    if n < 0 {
        pousser_car(s, '-');
        let m: u64 = (0i128 - n as i128) as u64;
        ecrire_decimal(s, m);
        assert(s@ =~= debut + decimal_signe(n as int));
    } else {
        ecrire_decimal(s, n as u64);
        assert(s@ =~= debut + decimal_signe(n as int));
    }
}

} // verus!
