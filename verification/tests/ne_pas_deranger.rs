use shimeji_desktop::ne_pas_deranger::interpreter;

#[test]
fn zero_veut_dire_desactive() {
    assert!(!interpreter(&[0, 0, 0, 0]));
}

#[test]
fn un_veut_dire_active() {
    assert!(interpreter(&[1, 0, 0, 0]));
}

#[test]
fn un_autre_profil_compte_aussi_comme_active() {
    assert!(interpreter(&[2, 0, 0, 0]));
}

#[test]
fn des_octets_manquants_ne_font_pas_croire_au_mode() {
    assert!(!interpreter(&[]));
    assert!(!interpreter(&[1, 0]));
}
