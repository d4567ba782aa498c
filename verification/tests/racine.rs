use shimeji_desktop::config::{racine_du_personnage, Racine};

#[test]
fn la_bibliotheque_gagne_sur_le_dossier_livre_quand_elle_a_le_personnage() {
    assert_eq!(racine_du_personnage(true, true), Some(Racine::Bibliotheque));
    assert_eq!(racine_du_personnage(true, false), Some(Racine::Bibliotheque));
    assert_eq!(racine_du_personnage(false, true), Some(Racine::Livre));
    assert_eq!(racine_du_personnage(false, false), None);
}
