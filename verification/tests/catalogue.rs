use shimeji_desktop::commandes::{bibliotheque_depuis, personnage_affiche, PackInstalle};

fn noms(v: &[&str]) -> Vec<String> {
    v.iter().map(|s| s.to_string()).collect()
}

fn pack(nom: &str, actif: bool) -> PackInstalle {
    PackInstalle { nom: nom.to_string(), actif }
}

#[test]
fn les_homonymes_des_deux_racines_n_apparaissent_qu_une_fois() {
    let trouves = noms(&["zoro", "blob", "luffy", "blob"]);
    assert_eq!(
        bibliotheque_depuis(&trouves, "luffy"),
        vec![pack("blob", false), pack("luffy", true), pack("zoro", false)]
    );
}

#[test]
fn une_bibliotheque_vide_n_est_pas_une_erreur() {
    assert_eq!(bibliotheque_depuis(&[], "blob"), vec![]);
}

#[test]
fn l_ordre_est_celui_des_octets() {
    let trouves = noms(&["b", "B", "a"]);
    assert_eq!(
        bibliotheque_depuis(&trouves, "x"),
        vec![pack("B", false), pack("a", false), pack("b", false)]
    );
}

#[test]
fn le_personnage_affiche_est_le_premier_ou_blob() {
    assert_eq!(personnage_affiche(&noms(&["luffy", "zoro"])), "luffy");
    assert_eq!(personnage_affiche(&[]), "blob");
}
