use shimeji_desktop::rng::{Rng, XorShift32};

#[test]
fn meme_graine_meme_sequence() {
    let mut a = XorShift32::seeded(42);
    let mut b = XorShift32::seeded(42);
    for _ in 0..100 {
        assert_eq!(a.next_u32(), b.next_u32());
    }
}

#[test]
fn graines_differentes_sequences_differentes() {
    let mut a = XorShift32::seeded(1);
    let mut b = XorShift32::seeded(2);
    assert_ne!(a.next_u32(), b.next_u32());
}

#[test]
fn graine_zero_ne_reste_pas_bloquee() {
    let mut r = XorShift32::seeded(0);
    let premier = r.next_u32();
    let second = r.next_u32();
    assert_ne!(premier, 0);
    assert_ne!(premier, second);
}

#[test]
fn le_premier_tirage_de_la_graine_un_est_le_xorshift_de_un() {
    // 1 ^ (1 << 13) = 8193 ; ^ (8193 >> 17) = 8193 ; ^ (8193 << 5) = 270369.
    let mut r = XorShift32::seeded(1);
    assert_eq!(r.next_u32(), 270_369);
}
