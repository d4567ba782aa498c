use shimeji_desktop::config::sans_bom;
use shimeji_desktop::duree::Duree;
use shimeji_desktop::render::label_ecran;

#[test]
fn le_label_d_un_ecran_porte_son_identite() {
    assert_eq!(label_ecran(0), "ecran-0");
    assert_eq!(label_ecran(65537), "ecran-65537");
    assert_eq!(label_ecran(u64::MAX), "ecran-18446744073709551615");
}

#[test]
fn une_duree_se_convertit_sans_perte() {
    let d = Duree::from_secs(2);
    assert_eq!(d.as_millis(), 2_000);
    assert_eq!(d.as_micros(), 2_000_000);
    assert_eq!(d.as_nanos(), 2_000_000_000);
    assert_eq!(Duree::from_millis(1_500).saturating_sub(Duree::from_secs(2)), Duree::zero());
    assert_eq!(Duree::from_secs(2).saturating_sub(Duree::from_millis(500)), Duree::from_millis(1_500));
}

#[test]
fn l_addition_verifiee_refuse_de_deborder() {
    let max = Duree::from_nanos(shimeji_desktop::duree::DUREE_MAX_NS);
    assert_eq!(max.checked_add(Duree::from_nanos(1)), None);
    assert_eq!(
        Duree::from_secs(1).checked_add(Duree::from_millis(1)),
        Some(Duree::from_millis(1_001))
    );
}

#[test]
fn une_seule_marque_d_ordre_des_octets_est_retiree() {
    assert_eq!(sans_bom("\u{feff}{\"a\":1}"), "{\"a\":1}");
    assert_eq!(sans_bom("{\"a\":1}"), "{\"a\":1}");
    assert_eq!(sans_bom("\u{feff}\u{feff}x"), "\u{feff}x");
    assert_eq!(sans_bom(""), "");
}
