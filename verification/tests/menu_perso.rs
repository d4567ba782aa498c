use shimeji_desktop::actions::{ID_CATALOGUE, ID_P_CACHER, ID_P_CACHER_CE, ID_QUITTER};
use shimeji_desktop::behavior::intention::{Intention, Jeu};
use shimeji_desktop::behavior::tenue::Tenue;
use shimeji_desktop::geom::Face;
use shimeji_desktop::menu_perso::{
    commande_de, commande_de_l_acteur, commande_de_tous, commande_pour, envies, id_connu, lignes,
    ou_de, resoudre_pour_tous, tenue_apres, tous_la_tiennent, Commande, Ligne, Ou,
};

/// Un pack qui sait tout jouer, comme `blob`.
fn tout_jouable() -> Vec<Intention> {
    vec![
        Intention::Flaner,
        Intention::SeReposer,
        Intention::Jouer(Jeu::TeteQuiTourne),
        Intention::Jouer(Jeu::JambesQuiBalancent),
        Intention::Grimper,
    ]
}

/// Les identifiants des envies du personnage que `lignes` propose ici.
fn ids_proposes(jouables: &[Intention], ou: Ou) -> Vec<&'static str> {
    let table: Vec<&'static str> = envies().iter().map(|e| e.id).collect();
    lignes(jouables, ou, None, &[])
        .into_iter()
        .filter_map(|l| match l {
            Ligne::Entree { id, .. } => Some(id),
            Ligne::Titre { .. } | Ligne::Separateur => None,
        })
        .filter(|id| table.contains(id))
        .collect()
}

fn libelle_de(lignes: &[Ligne], cherche: &str) -> Option<&'static str> {
    lignes.iter().find_map(|l| match l {
        Ligne::Entree { id, libelle, .. } if *id == cherche => Some(*libelle),
        _ => None,
    })
}

fn coche_de(lignes: &[Ligne], cherche: &str) -> Option<bool> {
    lignes.iter().find_map(|l| match l {
        Ligne::Entree { id, coche, .. } if *id == cherche => Some(*coche),
        _ => None,
    })
}

#[test]
fn chaque_envie_se_decode_en_elle_meme() {
    for e in envies() {
        assert_eq!(commande_de(e.id), Some(e.commande), "l'identifiant « {} » ne rend pas sa commande", e.id);
    }
}

#[test]
fn un_identifiant_inconnu_ne_decode_rien() {
    assert_eq!(commande_de("afficher"), None);
    assert_eq!(commande_de(""), None);
}

#[test]
fn le_menu_au_sol_ne_propose_aucune_action_d_accroche() {
    let ids = ids_proposes(&tout_jouable(), Ou::Sol);
    for interdit in ["perso.rester", "perso.redescendre", "perso.lacher"] {
        assert!(!ids.contains(&interdit), "« {interdit} » ne devrait pas apparaître au sol : {ids:?}");
    }
    assert_eq!(ids.len(), 5, "{ids:?}");
}

#[test]
fn le_menu_sur_un_mur_ne_propose_aucune_envie_de_sol() {
    let ids = ids_proposes(&tout_jouable(), Ou::Mur);
    for interdit in ["perso.flaner", "perso.asseoir", "perso.tete", "perso.jambes"] {
        assert!(!ids.contains(&interdit), "« {interdit} » ne devrait pas apparaître sur un mur : {ids:?}");
    }
    assert_eq!(ids.len(), 4, "{ids:?}");
    assert!(ids.contains(&"perso.grimper"));
    assert!(ids.contains(&"perso.rester"));
    assert!(ids.contains(&"perso.redescendre"));
    assert!(ids.contains(&"perso.lacher"));
}

#[test]
fn le_menu_au_plafond_ne_propose_ni_envie_de_sol_ni_redescendre() {
    let ids = ids_proposes(&tout_jouable(), Ou::Plafond);
    assert!(!ids.contains(&"perso.redescendre"), "{ids:?}");
    for interdit in ["perso.flaner", "perso.asseoir", "perso.tete", "perso.jambes"] {
        assert!(!ids.contains(&interdit), "« {interdit} » : {ids:?}");
    }
    assert_eq!(ids.len(), 3, "{ids:?}");
    assert!(ids.contains(&"perso.grimper"));
    assert!(ids.contains(&"perso.rester"));
    assert!(ids.contains(&"perso.lacher"));
}

#[test]
fn ou_de_lit_correctement_les_quatre_etats() {
    assert_eq!(ou_de(Some(Face::Top)), Ou::Sol);
    assert_eq!(ou_de(Some(Face::Left)), Ou::Mur);
    assert_eq!(ou_de(Some(Face::Right)), Ou::Mur);
    assert_eq!(ou_de(Some(Face::Bottom)), Ou::Plafond);
    // En chute, ou porté : accroché à aucune face.
    assert_eq!(ou_de(None), Ou::Sol);
}

#[test]
fn la_commande_revient_a_celui_qui_a_ouvert_le_menu() {
    let mut demandeur = Some("pet-3".to_string());
    let mut boite = Some(Commande::Basculer(Tenue::ResterAccroche));
    assert_eq!(
        commande_pour(&mut demandeur, &mut boite, "pet-3"),
        Some(Commande::Basculer(Tenue::ResterAccroche))
    );
    assert_eq!(boite, None);
    assert_eq!(demandeur, None);
}

#[test]
fn un_autre_acteur_ne_recoit_rien() {
    let mut demandeur = Some("pet-3".to_string());
    let mut boite = Some(Commande::SeLacher);
    assert_eq!(commande_pour(&mut demandeur, &mut boite, "pet-7"), None);
    assert_eq!(boite, Some(Commande::SeLacher));
    assert_eq!(demandeur, Some("pet-3".to_string()));
}

#[test]
fn sans_commande_le_demandeur_est_garde() {
    let mut demandeur = Some("pet-3".to_string());
    let mut boite: Option<Commande> = None;
    assert_eq!(commande_pour(&mut demandeur, &mut boite, "pet-3"), None);
    assert_eq!(demandeur, Some("pet-3".to_string()));
}

#[test]
fn l_ordre_a_tous_est_servi_a_qui_n_a_rien_demande() {
    let grimper = Commande::Intention(Intention::Grimper);
    assert_eq!(commande_de_l_acteur(None, Some(grimper)), Some(grimper));
    assert_eq!(commande_de_l_acteur(None, None), None);
}

#[test]
fn la_commande_personnelle_l_emporte_sur_l_ordre_a_tous() {
    let asseoir = Commande::Intention(Intention::SeReposer);
    let grimper = Commande::Intention(Intention::Grimper);
    assert_eq!(commande_de_l_acteur(Some(asseoir), Some(grimper)), Some(asseoir));
}

#[test]
fn les_deux_cacher_sont_proposes_partout_et_se_distinguent() {
    for ou in [Ou::Sol, Ou::Mur, Ou::Plafond] {
        let l = lignes(&tout_jouable(), ou, None, &[]);
        assert_eq!(libelle_de(&l, ID_P_CACHER_CE), Some("Cacher ce personnage"), "{ou:?}");
        assert_eq!(libelle_de(&l, ID_P_CACHER), Some("Cacher tous les personnages"), "{ou:?}");
    }
}

#[test]
fn cacher_ce_personnage_n_est_pas_une_envie() {
    assert_eq!(commande_de(ID_P_CACHER_CE), None);
}

#[test]
fn le_menu_n_a_aucun_separateur_mal_place() {
    for ou in [Ou::Sol, Ou::Mur, Ou::Plafond] {
        let l = lignes(&tout_jouable(), ou, None, &[]);
        assert_ne!(l.first(), Some(&Ligne::Separateur), "{ou:?}");
        assert_ne!(l.last(), Some(&Ligne::Separateur), "{ou:?}");
        assert!(!l.windows(2).any(|p| p[0] == Ligne::Separateur && p[1] == Ligne::Separateur), "{ou:?}");
    }
}

#[test]
fn la_coche_du_personnage_suit_sa_tenue() {
    let l = lignes(&tout_jouable(), Ou::Sol, Some(Tenue::Asseoir), &[Some(Tenue::Asseoir)]);
    assert_eq!(coche_de(&l, "perso.asseoir"), Some(true));
    assert_eq!(coche_de(&l, "perso.flaner"), Some(false));
    assert_eq!(coche_de(&l, "perso.tete"), Some(false));
}

#[test]
fn tout_le_monde_n_est_coche_que_si_tous_la_tiennent() {
    let un_seul = lignes(&tout_jouable(), Ou::Sol, None, &[Some(Tenue::Asseoir), None]);
    assert_eq!(coche_de(&un_seul, "tous.asseoir"), Some(false));
    let tous = lignes(&tout_jouable(), Ou::Sol, None, &[Some(Tenue::Asseoir), Some(Tenue::Asseoir)]);
    assert_eq!(coche_de(&tous, "tous.asseoir"), Some(true));
}

#[test]
fn la_section_tout_le_monde_suit_son_titre_avec_les_actions_du_sol() {
    let l = lignes(&tout_jouable(), Ou::Mur, None, &[None]);
    let titre = l
        .iter()
        .position(|x| *x == Ligne::Titre { texte: "Tout le monde" })
        .expect("le titre de section");
    let apres: Vec<&str> = l[titre + 1..]
        .iter()
        .map_while(|x| match x {
            Ligne::Entree { id, .. } if id.starts_with("tous.") => Some(*id),
            _ => None,
        })
        .collect();
    assert_eq!(apres, ["tous.flaner", "tous.asseoir", "tous.tete", "tous.jambes", "tous.grimper"]);
}

#[test]
fn monter_plus_haut_a_disparu() {
    for ou in [Ou::Sol, Ou::Mur, Ou::Plafond] {
        assert_eq!(coche_de(&lignes(&tout_jouable(), ou, None, &[]), "perso.monter"), None);
    }
}

#[test]
fn les_identifiants_tous_ne_vont_pas_au_demandeur() {
    assert_eq!(commande_de("tous.grimper"), None);
    assert_eq!(commande_de_tous("tous.grimper"), Some(Commande::Basculer(Tenue::Grimper)));
    assert_eq!(commande_de_tous("perso.grimper"), None);
}

#[test]
fn resoudre_pour_tous_tient_si_un_seul_ne_la_tient_pas() {
    let c = resoudre_pour_tous(Commande::Basculer(Tenue::Asseoir), &[Some(Tenue::Asseoir), None]);
    assert_eq!(c, Commande::Tenir(Tenue::Asseoir));
}

#[test]
fn resoudre_pour_tous_relache_si_tous_la_tiennent() {
    let c = resoudre_pour_tous(
        Commande::Basculer(Tenue::Asseoir),
        &[Some(Tenue::Asseoir), Some(Tenue::Asseoir)],
    );
    assert_eq!(c, Commande::Relacher(Tenue::Asseoir));
}

#[test]
fn resoudre_pour_tous_laisse_passer_le_reste() {
    let c = Commande::Intention(Intention::Jouer(Jeu::TeteQuiTourne));
    assert_eq!(resoudre_pour_tous(c, &[None]), c);
}

#[test]
fn chaque_entree_affichee_est_un_identifiant_connu() {
    for ou in [Ou::Sol, Ou::Mur, Ou::Plafond] {
        for l in lignes(&tout_jouable(), ou, None, &[None]) {
            if let Ligne::Entree { id, .. } = l {
                assert_eq!(id_connu(id), Some(id), "{id}");
            }
        }
    }
    assert_eq!(id_connu("n'importe.quoi"), None);
}

// ── Au-delà des tests d'origine ─────────────────────────────────────────

#[test]
fn personne_ne_tient_rien_quand_il_n_y_a_personne() {
    assert!(!tous_la_tiennent(Tenue::Asseoir, &[]));
    assert_eq!(resoudre_pour_tous(Commande::Basculer(Tenue::Asseoir), &[]), Commande::Tenir(Tenue::Asseoir));
}

#[test]
fn un_pack_qui_ne_sait_que_flaner_n_a_que_flaner_au_sol() {
    let ids = ids_proposes(&[Intention::Flaner], Ou::Sol);
    assert_eq!(ids, ["perso.flaner"]);
    // Au mur, il ne lui reste que ce qui ne demande aucune pose.
    let ids = ids_proposes(&[Intention::Flaner], Ou::Mur);
    assert_eq!(ids, ["perso.redescendre", "perso.lacher"]);
}

#[test]
fn un_pack_sans_envie_n_a_pas_de_separateur_en_tete() {
    let l = lignes(&[], Ou::Sol, None, &[]);
    assert_eq!(l[0], Ligne::Titre { texte: "Tout le monde" });
    assert_eq!(l.len(), 12);
}

#[test]
fn le_menu_complet_au_sol() {
    let l = lignes(&tout_jouable(), Ou::Sol, Some(Tenue::Flaner), &[Some(Tenue::Grimper)]);
    assert_eq!(
        l,
        vec![
            Ligne::Entree { id: "perso.flaner", libelle: "Flâner", coche: true },
            Ligne::Entree { id: "perso.asseoir", libelle: "S'asseoir", coche: false },
            Ligne::Entree { id: "perso.tete", libelle: "Faire son petit truc", coche: false },
            Ligne::Entree { id: "perso.jambes", libelle: "Balancer les jambes", coche: false },
            Ligne::Entree { id: "perso.grimper", libelle: "Grimper au mur", coche: false },
            Ligne::Separateur,
            Ligne::Titre { texte: "Tout le monde" },
            Ligne::Entree { id: "tous.flaner", libelle: "Flâner", coche: false },
            Ligne::Entree { id: "tous.asseoir", libelle: "S'asseoir", coche: false },
            Ligne::Entree { id: "tous.tete", libelle: "Faire son petit truc", coche: false },
            Ligne::Entree { id: "tous.jambes", libelle: "Balancer les jambes", coche: false },
            Ligne::Entree { id: "tous.grimper", libelle: "Grimper au mur", coche: true },
            Ligne::Separateur,
            Ligne::Entree { id: ID_P_CACHER_CE, libelle: "Cacher ce personnage", coche: false },
            Ligne::Entree { id: ID_P_CACHER, libelle: "Cacher tous les personnages", coche: false },
            Ligne::Entree { id: ID_CATALOGUE, libelle: "Catalogue de personnages…", coche: false },
            Ligne::Separateur,
            Ligne::Entree { id: ID_QUITTER, libelle: "Quitter", coche: false },
        ]
    );
}

#[test]
fn une_commande_tenue_change_ce_qu_il_tient() {
    assert_eq!(tenue_apres(None, Commande::Basculer(Tenue::Asseoir)), Some(Tenue::Asseoir));
    assert_eq!(tenue_apres(Some(Tenue::Asseoir), Commande::Basculer(Tenue::Asseoir)), None);
    assert_eq!(tenue_apres(Some(Tenue::Flaner), Commande::Basculer(Tenue::Asseoir)), Some(Tenue::Asseoir));
    assert_eq!(tenue_apres(Some(Tenue::Flaner), Commande::Tenir(Tenue::Asseoir)), Some(Tenue::Asseoir));
    assert_eq!(tenue_apres(Some(Tenue::Flaner), Commande::Relacher(Tenue::Asseoir)), Some(Tenue::Flaner));
    assert_eq!(tenue_apres(Some(Tenue::Asseoir), Commande::Relacher(Tenue::Asseoir)), None);
    assert_eq!(tenue_apres(Some(Tenue::Asseoir), Commande::SeLacher), Some(Tenue::Asseoir));
}
