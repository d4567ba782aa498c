use shimeji_desktop::notif_maison::{appel_de_notification, coin_bas_droit, js_de_notification};

#[test]
fn elle_se_pose_dans_le_coin_bas_droit_de_la_zone_de_travail() {
    let (x, y) = coin_bas_droit((0, 0, 1920, 1032), (400, 120), 8);
    assert_eq!((x, y), (1920 - 400 - 8, 1032 - 120 - 8));
}

#[test]
fn elle_suit_un_ecran_qui_ne_commence_pas_en_zero() {
    let (x, y) = coin_bas_droit((2560, 100, 1920, 1000), (400, 120), 8);
    assert_eq!((x, y), (2560 + 1920 - 400 - 8, 100 + 1000 - 120 - 8));
}

#[test]
fn le_texte_de_la_notification_ne_casse_pas_le_script() {
    // Un guillemet et un retour à la ligne dans le corps : échappés.
    let js = js_de_notification("Mise à jour", "il dit \"bonjour\"\npuis part");
    assert_eq!(
        js,
        "window.afficherNotif({\"corps\":\"il dit \\\"bonjour\\\"\\npuis part\",\"titre\":\"Mise à jour\"})"
    );
}

#[test]
fn l_appel_de_notification_range_corps_avant_titre() {
    assert_eq!(
        appel_de_notification("\"T\"", "\"C\""),
        "window.afficherNotif({\"corps\":\"C\",\"titre\":\"T\"})"
    );
}

#[test]
fn les_caracteres_de_controle_s_ecrivent_en_u00xx_minuscule() {
    let js = js_de_notification("a\\b\tc", "x\u{1}y\u{1f}z\u{8}\u{c}\r\u{7f}é");
    assert_eq!(
        js,
        "window.afficherNotif({\"corps\":\"x\\u0001y\\u001fz\\b\\f\\r\u{7f}é\",\"titre\":\"a\\\\b\\tc\"})"
    );
}

#[test]
fn le_coin_reboucle_comme_un_i32_hors_des_bornes() {
    let (x, y) = coin_bas_droit((i32::MAX, 0, 10, 100), (5, 20), 8);
    assert_eq!(x, i32::MAX.wrapping_add(10).wrapping_sub(5).wrapping_sub(8));
    assert_eq!(y, 100 - 20 - 8);
}
