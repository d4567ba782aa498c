use shimeji_desktop::menu_natif::entree_choisie;
use shimeji_desktop::menu_perso::Ligne;

#[test]
fn le_choix_rendu_par_le_systeme_est_le_rang_plus_un() {
    let lignes = [
        Ligne::Entree { id: "perso.flaner", libelle: "Flâner", coche: false },
        Ligne::Separateur,
        Ligne::Titre { texte: "Tout le monde" },
        Ligne::Entree { id: "quitter", libelle: "Quitter", coche: false },
    ];
    assert_eq!(entree_choisie(&lignes, 1), Some("perso.flaner"));
    assert_eq!(entree_choisie(&lignes, 4), Some("quitter"));
    // Zéro : rien n'a été choisi.
    assert_eq!(entree_choisie(&lignes, 0), None);
    assert_eq!(entree_choisie(&lignes, 2), None);
    assert_eq!(entree_choisie(&lignes, 3), None);
    assert_eq!(entree_choisie(&lignes, 5), None);
    assert_eq!(entree_choisie(&lignes, -1), None);
}
