use shimeji_desktop::overlay::{js_de, table_packs_js, ChargeEcran, SpriteRelatif};

#[test]
fn le_js_appelle_poser_tous_avec_un_tableau_de_tableaux() {
    let charge = ChargeEcran {
        ecran: 1,
        sprites: vec![SpriteRelatif { id: 4, x: 10, y: 20, w: 128, h: 128, image: 7, flip: false }],
    };
    assert_eq!(js_de(&charge), "window.poserTous([[4,10,20,128,128,7,0]])");
}

#[test]
fn le_flip_est_un_entier_et_non_un_booleen() {
    let charge = ChargeEcran {
        ecran: 1,
        sprites: vec![SpriteRelatif { id: 1, x: 0, y: 0, w: 64, h: 64, image: 2, flip: true }],
    };
    assert!(js_de(&charge).ends_with(",1]])"));
}

#[test]
fn plusieurs_sprites_sont_separes_par_une_virgule() {
    let charge = ChargeEcran {
        ecran: 1,
        sprites: vec![
            SpriteRelatif { id: 1, x: 0, y: 0, w: 1, h: 2, image: 3, flip: false },
            SpriteRelatif { id: 2, x: -5, y: 6, w: 7, h: 8, image: 9, flip: true },
        ],
    };
    assert_eq!(js_de(&charge), "window.poserTous([[1,0,0,1,2,3,0],[2,-5,6,7,8,9,1]])");
}

#[test]
fn une_charge_vide_ne_produit_pas_de_javascript_casse() {
    let charge = ChargeEcran { ecran: 1, sprites: Vec::new() };
    assert_eq!(js_de(&charge), "window.poserTous([])");
}

#[test]
fn les_extremes_des_entiers_s_ecrivent_en_entier() {
    let charge = ChargeEcran {
        ecran: 9,
        sprites: vec![SpriteRelatif {
            id: u32::MAX,
            x: i32::MIN,
            y: i32::MAX,
            w: 0,
            h: 10,
            image: 100,
            flip: false,
        }],
    };
    assert_eq!(
        js_de(&charge),
        "window.poserTous([[4294967295,-2147483648,2147483647,0,10,100,0]])"
    );
}

#[test]
fn la_table_des_packs_a_des_cles_chaines() {
    assert_eq!(table_packs_js(&[]), "{}");
    assert_eq!(
        table_packs_js(&[(3, "blob".to_string()), (12, "chat".to_string())]),
        "{\"3\":\"blob\",\"12\":\"chat\"}"
    );
}
