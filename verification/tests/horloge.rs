use shimeji_desktop::clock::{Clock, FakeClock};
use shimeji_desktop::duree::Duree;

#[test]
fn fake_clock_demarre_a_zero() {
    let c = FakeClock::new();
    assert_eq!(c.elapsed(), Duree::zero());
}

#[test]
fn fake_clock_avance_par_cumul() {
    let mut c = FakeClock::new();
    c.advance(Duree::from_millis(500));
    c.advance(Duree::from_millis(300));
    assert_eq!(c.elapsed(), Duree::from_millis(800));
}

#[test]
fn fake_clock_avance_a_travers_une_reference_non_mutable() {
    // Le temps avance par l'horloge elle-même ; celui qui ne détient que
    // la vue `&dyn Clock` le lit.
    let mut c = FakeClock::new();
    c.advance(Duree::from_secs(20));
    let vue: &dyn Clock = &c;
    assert_eq!(vue.elapsed(), Duree::from_secs(20));
}

#[test]
fn fake_clock_peut_sauter_a_une_date() {
    let mut c = FakeClock::new();
    c.advance(Duree::from_secs(5));
    c.set(Duree::from_secs(1));
    assert_eq!(c.elapsed(), Duree::from_secs(1));
}

#[test]
fn l_horloge_systeme_avance_sans_reculer() {
    let c = shimeji_desktop::clock::SystemClock::new();
    let a = c.elapsed();
    let b = c.elapsed();
    assert!(b >= a);
}
