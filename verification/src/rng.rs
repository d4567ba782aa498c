//! L'aléatoire, injecté et graînable : un générateur xorshift 32 bits,
//! reproductible à graine égale.
//!
//! Les tirages flottants et pondérés, qui demandent des `f32`, vivent hors de
//! la bibliothèque vérifiée : ils ne font que transformer `next_u32`.

use vstd::prelude::*;

verus! {

/// La graine qui remplace 0 : xorshift reste bloqué à zéro pour toujours si
/// son état est nul.
pub const GRAINE_DE_SECOURS: u32 = 0x9E37_79B9;

/// Trois décalages-xor : le pas du générateur.
pub open spec fn xorshift(x: u32) -> u32 {
    let a = x ^ (x << 13u32);
    let b = a ^ (a >> 17u32);
    b ^ (b << 5u32)
}

/// L'état après `n` tirages depuis l'état `e`.
pub open spec fn etat_apres(e: u32, n: nat) -> u32
    decreases n,
{
    if n == 0 {
        e
    } else {
        xorshift(etat_apres(e, (n - 1) as nat))
    }
}

/// L'état initial d'un générateur semé par `graine`.
pub open spec fn etat_initial(graine: u32) -> u32 {
    if graine == 0 {
        GRAINE_DE_SECOURS
    } else {
        graine
    }
}

/// Ce que le reste du programme sait de l'aléatoire : un tirage primitif,
/// qui fait avancer l'état.
pub trait Rng {
    fn next_u32(&mut self) -> u32;
}

/// Xorshift 32 bits.
pub struct XorShift32 {
    state: u32,
}

impl View for XorShift32 {
    type V = u32;

    closed spec fn view(&self) -> u32 {
        self.state
    }
}

impl XorShift32 {
    #[verifier::type_invariant]
    closed spec fn etat_non_nul(self) -> bool {
        self.state != 0
    }

    /// Un générateur semé par `seed` ; 0 est remplacé par
    /// `GRAINE_DE_SECOURS`.
    pub fn seeded(seed: u32) -> (r: XorShift32)
        ensures
            r@ == etat_initial(seed),
            r@ != 0,
    {
        XorShift32 { state: if seed == 0 { GRAINE_DE_SECOURS } else { seed } }
    }
}

impl Rng for XorShift32 {
    /// Le tirage : le nouvel état, qui est aussi la valeur rendue.
    fn next_u32(&mut self) -> (x: u32)
        ensures
            x == xorshift(old(self)@),
            final(self)@ == x,
            x != 0,
    {
        proof {
            use_type_invariant(&*self);
            lemme_xorshift_non_nul(self.state);
        }
        let mut x = self.state;
        x ^= x << 13;
        x ^= x >> 17;
        x ^= x << 5;
        self.state = x;
        x
    }
}

proof fn lemme_pas_gauche_injectif(a: u32, b: u32, k: u32)
    by (bit_vector)
    requires
        1 <= k < 32,
        a ^ (a << k) == b ^ (b << k),
    ensures
        a == b,
{
}

proof fn lemme_pas_droite_injectif(a: u32, b: u32, k: u32)
    by (bit_vector)
    requires
        1 <= k < 32,
        a ^ (a >> k) == b ^ (b >> k),
    ensures
        a == b,
{
}

/// Loi : le pas de xorshift est injectif. Deux états différents donnent
/// donc deux tirages différents.
pub proof fn lemme_xorshift_injectif(a: u32, b: u32)
    ensures
        xorshift(a) == xorshift(b) ==> a == b,
{
    if xorshift(a) == xorshift(b) {
        let a1 = a ^ (a << 13u32);
        let b1 = b ^ (b << 13u32);
        let a2 = a1 ^ (a1 >> 17u32);
        let b2 = b1 ^ (b1 >> 17u32);
        lemme_pas_gauche_injectif(a2, b2, 5);
        lemme_pas_droite_injectif(a1, b1, 17);
        lemme_pas_gauche_injectif(a, b, 13);
    }
}

/// Loi : un état non nul ne devient jamais nul — le générateur ne se bloque
/// pas.
pub proof fn lemme_xorshift_non_nul(x: u32)
    ensures
        x != 0 ==> xorshift(x) != 0,
{
    lemme_xorshift_injectif(x, 0);
    assert(xorshift(0) == 0) by (bit_vector);
}

/// Loi : deux générateurs de même graine parcourent la même suite d'états,
/// et deux générateurs de graines non nulles différentes ont des états
/// différents à chaque rang.
pub proof fn loi_graine_et_suite(g1: u32, g2: u32, n: nat)
    ensures
        g1 == g2 ==> etat_apres(etat_initial(g1), n) == etat_apres(etat_initial(g2), n),
        etat_initial(g1) != etat_initial(g2) ==> etat_apres(etat_initial(g1), n) != etat_apres(
            etat_initial(g2),
            n,
        ),
        etat_apres(etat_initial(g1), n) != 0,
    decreases n,
{
    if n > 0 {
        loi_graine_et_suite(g1, g2, (n - 1) as nat);
        lemme_xorshift_injectif(
            etat_apres(etat_initial(g1), (n - 1) as nat),
            etat_apres(etat_initial(g2), (n - 1) as nat),
        );
        lemme_xorshift_non_nul(etat_apres(etat_initial(g1), (n - 1) as nat));
    }
}

} // verus!
