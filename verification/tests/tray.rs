use shimeji_desktop::actions::{ID_AFFICHER, ID_CATALOGUE, ID_DEMARRAGE, ID_MAJ, ID_QUITTER};
use shimeji_desktop::maj::EtatMaj;
use shimeji_desktop::tray::{entrees_du_tray, est_un_personnage, EntreeTray};

#[test]
fn seules_les_fenetres_pet_sont_des_personnages() {
    assert!(est_un_personnage("pet-3"));
    assert!(est_un_personnage("pet-"));
    assert!(!est_un_personnage("catalogue"));
    assert!(!est_un_personnage("pe"));
    assert!(!est_un_personnage("ecran-2"));
}

#[test]
fn le_menu_du_tray_suit_le_registre_pour_le_demarrage() {
    let attendu = |demarrage| {
        vec![
            EntreeTray::Case { id: ID_AFFICHER, libelle: "Afficher les personnages", cochee: true },
            EntreeTray::Case { id: ID_DEMARRAGE, libelle: "Démarrer avec Windows", cochee: demarrage },
            EntreeTray::Simple { id: ID_CATALOGUE, libelle: "Ouvrir le gestionnaire…" },
            EntreeTray::Variable { id: ID_MAJ, libelle: "Vérifier les mises à jour…".to_string() },
            EntreeTray::Separateur,
            EntreeTray::Simple { id: ID_QUITTER, libelle: "Quitter" },
        ]
    };
    assert_eq!(entrees_du_tray(true, &EtatMaj::Repos), attendu(true));
    assert_eq!(entrees_du_tray(false, &EtatMaj::Repos), attendu(false));
}

#[test]
fn l_entree_de_la_mise_a_jour_dit_la_version_disponible() {
    let m = entrees_du_tray(false, &EtatMaj::Disponible("0.4.0".to_string()));
    assert_eq!(
        m[3],
        EntreeTray::Variable { id: ID_MAJ, libelle: "Mettre à jour vers la v0.4.0".to_string() }
    );
    assert_eq!(m.len(), 6);
}
