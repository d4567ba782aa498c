use shimeji_desktop::behavior::intention::Intention;
use shimeji_desktop::boucle::{pas_de_boucle, ActionBoucle, EtatBoucle, Evenement, Sujet};
use shimeji_desktop::menu_perso::{lignes, Commande, Ou};
use shimeji_desktop::roster::ActionRoster;

fn tick(e: &mut EtatBoucle, t: u64) -> Vec<ActionBoucle> {
    pas_de_boucle(e, Evenement::Tick { maintenant: t })
}

fn image(e: &mut EtatBoucle, t: u64, charges: &[(u64, &str)]) -> Vec<ActionBoucle> {
    let charges = charges.iter().map(|(id, js)| (*id, js.to_string())).collect();
    pas_de_boucle(e, Evenement::Image { maintenant: t, charges })
}

fn sujet(id: u32) -> Sujet {
    Sujet {
        id,
        ou: Ou::Sol,
        tenue: None,
        jouables: vec![Intention::Flaner, Intention::SeReposer],
        presents: vec![None],
    }
}

fn souris(e: &mut EtatBoucle, droit: bool, sous: Option<u32>) -> Vec<ActionBoucle> {
    pas_de_boucle(e, Evenement::Souris { droit_enfonce: droit, sous_le_curseur: sous.map(sujet) })
}

#[test]
fn les_signaux_se_lisent_toutes_les_500_ms_et_le_monde_toutes_les_125() {
    let mut e = EtatBoucle::nouveau();
    assert_eq!(tick(&mut e, 0), vec![]);
    assert_eq!(tick(&mut e, 124), vec![]);
    assert_eq!(tick(&mut e, 125), vec![ActionBoucle::Recenser]);
    assert_eq!(tick(&mut e, 499), vec![ActionBoucle::Recenser]);
    assert_eq!(tick(&mut e, 500), vec![ActionBoucle::LireSignaux]);
    assert_eq!(tick(&mut e, 999), vec![ActionBoucle::Recenser]);
    assert_eq!(tick(&mut e, 1000), vec![ActionBoucle::LireSignaux]);
    assert_eq!(e.dernier_signal, 1000);
}

#[test]
fn le_verrouillage_cache_et_le_retour_reveille_sans_defaire_le_choix() {
    let mut e = EtatBoucle::nouveau();
    let v = |e: &mut EtatBoucle, verrouillee, voulu| {
        pas_de_boucle(e, Evenement::Signaux { verrouillee, visible_voulu: voulu })
    };
    assert_eq!(v(&mut e, false, true), vec![]);
    assert_eq!(v(&mut e, true, true), vec![ActionBoucle::Visibilite(false)]);
    assert_eq!(v(&mut e, true, true), vec![]);
    assert_eq!(v(&mut e, false, false), vec![ActionBoucle::Reveiller, ActionBoucle::Visibilite(false)]);
    assert_eq!(v(&mut e, true, true), vec![ActionBoucle::Visibilite(false)]);
    assert_eq!(v(&mut e, false, true), vec![ActionBoucle::Reveiller, ActionBoucle::Visibilite(true)]);
}

#[test]
fn un_clic_droit_ouvre_un_seul_menu_et_la_commande_revient_a_son_auteur() {
    let mut e = EtatBoucle::nouveau();
    assert_eq!(souris(&mut e, true, Some(7)), vec![]);
    assert_eq!(souris(&mut e, true, Some(7)), vec![]);
    let attendu = lignes(&[Intention::Flaner, Intention::SeReposer], Ou::Sol, None, &[None]);
    assert_eq!(souris(&mut e, false, Some(7)), vec![ActionBoucle::OuvrirMenu { acteur: 7, lignes: attendu }]);
    assert_eq!(souris(&mut e, false, Some(7)), vec![]);
    let c = Commande::Intention(Intention::SeReposer);
    assert_eq!(
        pas_de_boucle(&mut e, Evenement::Commande { commande: c }),
        vec![ActionBoucle::Commander { acteur: 7, commande: c }]
    );
    assert_eq!(pas_de_boucle(&mut e, Evenement::Commande { commande: c }), vec![]);
}

#[test]
fn un_relachement_hors_de_tout_personnage_n_ouvre_rien() {
    let mut e = EtatBoucle::nouveau();
    souris(&mut e, true, None);
    assert_eq!(souris(&mut e, false, None), vec![]);
    assert_eq!(e.demandeur, None);
}

#[test]
fn une_fenetre_s_ouvre_s_amorce_puis_n_envoie_que_ce_qui_change() {
    let mut e = EtatBoucle::nouveau();
    assert_eq!(
        image(&mut e, 0, &[(1, "a")]),
        vec![
            ActionBoucle::OuvrirEcran(1),
            ActionBoucle::Declarer,
            ActionBoucle::Envoyer { ecran: 1, js: "a".to_string() },
        ]
    );
    // Moins de 66 ms plus tard : rien ne part, mais l'amorçage republie.
    assert_eq!(image(&mut e, 10, &[(1, "a")]), vec![ActionBoucle::Declarer]);
    // En amorçage, la même charge repart.
    assert_eq!(
        image(&mut e, 100, &[(1, "a")]),
        vec![ActionBoucle::Declarer, ActionBoucle::Envoyer { ecran: 1, js: "a".to_string() }]
    );
    // Après l'amorçage, la même charge ne repart pas ; une autre, si.
    assert_eq!(image(&mut e, 2100, &[(1, "a")]), vec![]);
    assert_eq!(
        image(&mut e, 2200, &[(1, "b")]),
        vec![ActionBoucle::Envoyer { ecran: 1, js: "b".to_string() }]
    );
    // Un envoi perdu est refait.
    pas_de_boucle(&mut e, Evenement::EnvoiEchoue { ecran: 1 });
    assert_eq!(
        image(&mut e, 2300, &[(1, "b")]),
        vec![ActionBoucle::Envoyer { ecran: 1, js: "b".to_string() }]
    );
}

#[test]
fn une_fenetre_vide_ne_se_ferme_qu_apres_trois_secondes() {
    let mut e = EtatBoucle::nouveau();
    image(&mut e, 0, &[(1, "a")]);
    assert_eq!(image(&mut e, 3000, &[]), vec![]);
    assert_eq!(image(&mut e, 5999, &[]), vec![]);
    // Un sprite revenu efface le compte.
    image(&mut e, 6000, &[(1, "a")]);
    assert_eq!(image(&mut e, 6100, &[]), vec![]);
    assert_eq!(image(&mut e, 9099, &[]), vec![]);
    assert_eq!(image(&mut e, 9100, &[]), vec![ActionBoucle::FermerEcran(1)]);
    assert!(e.ecrans.is_empty());
}

#[test]
fn une_fenetre_refusee_est_redemandee() {
    let mut e = EtatBoucle::nouveau();
    image(&mut e, 0, &[(4, "a")]);
    pas_de_boucle(&mut e, Evenement::EcranRefuse { ecran: 4 });
    assert!(e.ecrans.is_empty());
    assert_eq!(image(&mut e, 10, &[(4, "a")]), vec![ActionBoucle::OuvrirEcran(4), ActionBoucle::Declarer]);
}

#[test]
fn un_rechargement_donne_le_plan_et_republie_la_table() {
    let mut e = EtatBoucle::nouveau();
    image(&mut e, 0, &[(1, "a")]);
    let a = pas_de_boucle(
        &mut e,
        Evenement::Roster {
            presents: vec!["blob".to_string(), "luffy".to_string()],
            voulus: vec!["blob".to_string(), "zoro".to_string()],
            sans_animation: false,
        },
    );
    assert_eq!(
        a,
        vec![
            ActionBoucle::Partir("luffy".to_string()),
            ActionBoucle::Roster(ActionRoster::Creer("zoro".to_string())),
        ]
    );
    assert_eq!(image(&mut e, 2500, &[(1, "a")]), vec![ActionBoucle::Declarer, ActionBoucle::Envoyer {
        ecran: 1,
        js: "a".to_string(),
    }]);
    pas_de_boucle(&mut e, Evenement::ActeurRetire);
    assert_eq!(image(&mut e, 2600, &[(1, "a")]), vec![ActionBoucle::Declarer, ActionBoucle::Envoyer {
        ecran: 1,
        js: "a".to_string(),
    }]);
}

#[test]
fn sans_animation_le_retrait_est_immediat_et_republie_la_table() {
    let mut e = EtatBoucle::nouveau();
    image(&mut e, 0, &[(1, "a")]);
    let a = pas_de_boucle(
        &mut e,
        Evenement::Roster {
            presents: vec!["blob".to_string(), "luffy".to_string()],
            voulus: vec!["blob".to_string()],
            sans_animation: true,
        },
    );
    assert_eq!(a, vec![ActionBoucle::Roster(ActionRoster::RetirerUn("luffy".to_string()))]);
    assert!(e.a_declarer);
}

#[test]
fn un_depart_ne_republie_la_table_qu_une_fois_l_acteur_parti() {
    let mut e = EtatBoucle::nouveau();
    let a = pas_de_boucle(
        &mut e,
        Evenement::Roster {
            presents: vec!["luffy".to_string()],
            voulus: vec![],
            sans_animation: false,
        },
    );
    assert_eq!(a, vec![ActionBoucle::Partir("luffy".to_string())]);
    assert!(!e.a_declarer);
    pas_de_boucle(&mut e, Evenement::ActeurRetire);
    assert!(e.a_declarer);
}

#[test]
fn les_clics_traversent_partout_sauf_sur_l_ecran_du_personnage() {
    let mut e = EtatBoucle::nouveau();
    image(&mut e, 0, &[(1, "a"), (2, "b")]);
    let clics = |e: &mut EtatBoucle, absorbant| pas_de_boucle(e, Evenement::Clics { ecran_absorbant: absorbant });
    assert_eq!(
        clics(&mut e, None),
        vec![
            ActionBoucle::TraverserClics { ecran: 1, traverser: true },
            ActionBoucle::TraverserClics { ecran: 2, traverser: true },
        ]
    );
    // Rien ne change : rien n'est redemandé.
    assert_eq!(clics(&mut e, None), vec![]);
    assert_eq!(clics(&mut e, Some(2)), vec![ActionBoucle::TraverserClics { ecran: 2, traverser: false }]);
    assert_eq!(clics(&mut e, Some(2)), vec![]);
    assert_eq!(
        clics(&mut e, Some(1)),
        vec![
            ActionBoucle::TraverserClics { ecran: 1, traverser: false },
            ActionBoucle::TraverserClics { ecran: 2, traverser: true },
        ]
    );
    // Un réglage qui a échoué est redemandé.
    pas_de_boucle(&mut e, Evenement::TraverseeEchouee { ecran: 2 });
    assert_eq!(clics(&mut e, Some(1)), vec![ActionBoucle::TraverserClics { ecran: 2, traverser: true }]);
}
