use shimeji_desktop::frames::{analyser_chemin_de_frame, CheminDeFrame};

fn image(personnage: &str, numero: u32) -> Option<CheminDeFrame> {
    Some(CheminDeFrame { personnage: personnage.to_string(), numero })
}

#[test]
fn un_chemin_bien_forme_designe_une_image() {
    assert_eq!(analyser_chemin_de_frame("/blob/12"), image("blob", 12));
    assert_eq!(analyser_chemin_de_frame("blob/0"), image("blob", 0));
    assert_eq!(analyser_chemin_de_frame("///mon-pack_2/7"), image("mon-pack_2", 7));
}

#[test]
fn un_point_point_ne_sort_jamais_du_dossier() {
    assert_eq!(analyser_chemin_de_frame("/../12"), None);
    assert_eq!(analyser_chemin_de_frame("/blob/../../etc"), None);
    assert_eq!(analyser_chemin_de_frame("/bl.ob/3"), None);
    assert_eq!(analyser_chemin_de_frame("/C:\\x/3"), None);
}

#[test]
fn il_faut_exactement_deux_segments() {
    assert_eq!(analyser_chemin_de_frame("/blob"), None);
    assert_eq!(analyser_chemin_de_frame("/blob/1/2"), None);
    assert_eq!(analyser_chemin_de_frame("/blob/"), None);
    assert_eq!(analyser_chemin_de_frame("//12"), None);
    assert_eq!(analyser_chemin_de_frame(""), None);
}

#[test]
fn le_numero_se_lit_comme_u32_from_str() {
    assert_eq!(analyser_chemin_de_frame("/blob/+5"), image("blob", 5));
    assert_eq!(analyser_chemin_de_frame("/blob/007"), image("blob", 7));
    assert_eq!(analyser_chemin_de_frame("/blob/4294967295"), image("blob", u32::MAX));
    assert_eq!(analyser_chemin_de_frame("/blob/4294967296"), None);
    assert_eq!(analyser_chemin_de_frame("/blob/-1"), None);
    assert_eq!(analyser_chemin_de_frame("/blob/+"), None);
    assert_eq!(analyser_chemin_de_frame("/blob/1a"), None);
    assert_eq!(analyser_chemin_de_frame("/blob/ 1"), None);
}

#[test]
fn un_nom_non_ascii_est_refuse() {
    assert_eq!(analyser_chemin_de_frame("/éléphant/1"), None);
}
