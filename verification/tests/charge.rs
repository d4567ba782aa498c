use shimeji_desktop::charge::Moniteur;
use shimeji_desktop::duree::Duree;

#[test]
fn une_latence_non_mesuree_vaut_zero() {
    let m = Moniteur::nouveau();
    assert_eq!(m.latence(), Duree::zero());
}

#[test]
fn la_derniere_mesure_est_celle_qui_est_lue() {
    let mut m = Moniteur::nouveau();
    m.enregistrer(Duree::from_millis(42));
    assert_eq!(m.latence(), Duree::from_millis(42));
    m.enregistrer(Duree::from_millis(7));
    assert_eq!(m.latence(), Duree::from_millis(7));
}

#[test]
fn un_seul_jeton_en_vol_a_la_fois() {
    let mut m = Moniteur::nouveau();
    assert!(m.prendre_le_vol());
    assert!(!m.prendre_le_vol());
    m.enregistrer(Duree::from_millis(3));
    assert!(m.prendre_le_vol());
}

#[test]
fn une_latence_se_lit_a_la_microseconde() {
    // La mesure est gardée en microsecondes : les nanosecondes en trop
    // sont perdues, pas arrondies vers le haut.
    let mut m = Moniteur::nouveau();
    m.enregistrer(Duree::from_nanos(1_999));
    assert_eq!(m.latence(), Duree::from_micros(1));
}
