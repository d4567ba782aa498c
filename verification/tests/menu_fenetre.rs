use shimeji_desktop::duree::Duree;
use shimeji_desktop::menu_fenetre::{est_abandonne, hors_du_menu, DELAI_PLACEMENT_MS};

#[test]
fn un_clic_hors_du_menu_est_detecte() {
    let rect = (100, 100, 200, 300);
    assert!(!hors_du_menu((150, 150), rect));
    assert!(hors_du_menu((99, 150), rect));
    assert!(hors_du_menu((150, 401), rect));
}

#[test]
fn un_menu_jamais_place_est_abandonne() {
    let ouvert = Duree::from_secs(10);
    let delai = Duree::from_millis(DELAI_PLACEMENT_MS);
    assert!(!est_abandonne(ouvert, ouvert.plus(Duree::from_millis(500)), false));
    assert!(est_abandonne(ouvert, ouvert.plus(delai).plus(Duree::from_millis(1)), false));
    assert!(!est_abandonne(ouvert, ouvert.plus(Duree::from_secs(600)), true));
}

#[test]
fn le_bord_droit_du_menu_est_deja_dehors() {
    let rect = (100, 100, 200, 300);
    assert!(!hors_du_menu((299, 399), rect));
    assert!(hors_du_menu((300, 150), rect));
    assert!(hors_du_menu((150, 400), rect));
}

use shimeji_desktop::menu_fenetre::placer_dans_l_ecran;

/// Un écran 1920×1080 à l'origine, en bornes gauche, haut, droite, bas.
const ECRAN: (i32, i32, i32, i32) = (0, 0, 1920, 1080);

#[test]
fn au_milieu_le_coin_de_la_fenetre_est_decale_de_la_marge() {
    // 200×300 plus une marge d'ombre de 12 de chaque côté.
    assert_eq!(placer_dans_l_ecran((500, 400), 12, (224, 324), ECRAN), (488, 388));
}

#[test]
fn pres_du_coin_bas_droit_le_menu_s_ouvre_vers_le_haut_et_la_gauche() {
    let (x, y) = placer_dans_l_ecran((1900, 1070), 12, (224, 324), ECRAN);
    // À droite il se replie de l'autre côté du curseur ; en bas, replié,
    // il déborderait encore de deux pixels : il est serré contre le bord.
    assert_eq!((x, y), (1900 - 224 + 12, 1080 - 324));
    assert!(x >= 0 && y >= 0 && x + 224 <= 1920 && y + 324 <= 1080);
}

#[test]
fn un_menu_contre_le_bord_est_serre_dans_l_ecran() {
    // Trop près du bord gauche pour s'ouvrir de l'autre côté : serré.
    let (x, _) = placer_dans_l_ecran((5, 400), 12, (224, 324), ECRAN);
    assert_eq!(x, 0);
    // Un écran à droite du premier garde son origine.
    let (x, _) = placer_dans_l_ecran((1925, 400), 12, (224, 324), (1920, 0, 3840, 1080));
    assert_eq!(x, 1920);
}

#[test]
fn hors_des_bornes_d_un_i32_le_coin_reboucle() {
    let (x, _) = placer_dans_l_ecran((i32::MIN, 500), 10, (100, 50), (0, 0, 1920, 1080));
    // i32::MIN - 10 reboucle vers le haut : le menu se replie, puis se serre
    // contre le bord droit.
    let c = i32::MIN.wrapping_sub(10);
    let c = if c.wrapping_add(100) > 1920 { i32::MIN.wrapping_sub(100).wrapping_add(10) } else { c };
    let serre = if c < 1920 - 100 { c } else { 1920 - 100 };
    assert_eq!(x, if serre > 0 { serre } else { 0 });
}
