use shimeji_desktop::character::manifest::{
    est_pose_portee, frame_ms_par_defaut, frame_size_par_defaut, retenir_les_poses_jouables,
    ManifestError, Pose, PoseNommee, POSES_DRAGGED_LEFT, POSES_DRAGGED_RIGHT, POSE_DRAGGED,
    POSE_FALL, POSE_STAND, POSE_WALK,
};
use shimeji_desktop::character::{Animation, Facing};
use shimeji_desktop::duree::Duree;

fn pose(frames: &[u32], frame_ms: u32, looping: bool, hold: Option<u32>) -> Pose {
    Pose { frames: frames.to_vec(), frame_ms, looping, hold }
}

/// Les poses du manifeste minimal : `stand` sur l'image 1, `walk` sur les
/// images 2 et 3, 120 ms chacune, en boucle.
fn minimal() -> Vec<PoseNommee> {
    vec![
        PoseNommee { nom: POSE_STAND.to_string(), pose: pose(&[1], frame_ms_par_defaut(), false, None) },
        PoseNommee { nom: POSE_WALK.to_string(), pose: pose(&[2, 3], 120, true, None) },
    ]
}

fn noms(p: &[PoseNommee]) -> Vec<&str> {
    p.iter().map(|x| x.nom.as_str()).collect()
}

#[test]
fn facing_droite_demande_un_miroir() {
    assert!(Facing::Right.flipped());
    assert!(!Facing::Left.flipped());
}

#[test]
fn inverse_fait_un_aller_retour() {
    assert_eq!(Facing::Left.inverse(), Facing::Right);
    assert_eq!(Facing::Left.inverse().inverse(), Facing::Left);
}

#[test]
fn les_poses_portees_sont_reconnues_toutes_les_sept() {
    assert!(est_pose_portee(POSE_DRAGGED));
    for p in POSES_DRAGGED_LEFT.iter().chain(POSES_DRAGGED_RIGHT.iter()) {
        assert!(est_pose_portee(p), "pose portée non reconnue : {p}");
    }
    assert!(!est_pose_portee(POSE_STAND));
    assert!(!est_pose_portee(POSE_FALL));
}

#[test]
fn une_pose_dont_les_images_manquent_est_retiree_sans_erreur() {
    let (gardees, retirees) =
        retenir_les_poses_jouables(minimal(), &[1]).expect("le chargement doit réussir malgré tout");
    assert_eq!(noms(&gardees), [POSE_STAND]);
    assert_eq!(retirees, [POSE_WALK]);
}

#[test]
fn une_pose_partiellement_couverte_est_retiree_entierement() {
    let (gardees, _) = retenir_les_poses_jouables(minimal(), &[1, 2]).unwrap();
    assert!(!noms(&gardees).contains(&POSE_WALK));
}

#[test]
fn un_manifeste_sans_aucune_pose_jouable_est_une_erreur() {
    match retenir_les_poses_jouables(minimal(), &[]) {
        Err(ManifestError::AucunePoseJouable) => {}
        Err(autre) => panic!("attendu AucunePoseJouable, obtenu {autre:?}"),
        Ok((g, r)) => panic!("attendu AucunePoseJouable, obtenu {:?} / {r:?}", noms(&g)),
    }
}

#[test]
fn une_pose_sans_frame_est_rejetee_a_la_validation() {
    let poses = vec![
        PoseNommee { nom: POSE_STAND.to_string(), pose: pose(&[1], 150, false, None) },
        PoseNommee { nom: "vide".to_string(), pose: pose(&[], 150, false, None) },
    ];
    let (gardees, retirees) = retenir_les_poses_jouables(poses, &[1]).unwrap();
    assert_eq!(noms(&gardees), [POSE_STAND]);
    assert_eq!(retirees, ["vide"]);
}

#[test]
fn toutes_les_poses_couvertes_sont_gardees_dans_leur_ordre() {
    let (gardees, retirees) = retenir_les_poses_jouables(minimal(), &[3, 2, 1]).unwrap();
    assert_eq!(noms(&gardees), [POSE_STAND, POSE_WALK]);
    assert!(retirees.is_empty());
}

#[test]
fn frame_a_avance_dans_une_animation_en_boucle() {
    let walk = pose(&[2, 3], 120, true, None);
    assert_eq!(walk.frame_a(Duree::from_millis(0)), 2);
    assert_eq!(walk.frame_a(Duree::from_millis(119)), 2);
    assert_eq!(walk.frame_a(Duree::from_millis(120)), 3);
    assert_eq!(walk.frame_a(Duree::from_millis(240)), 2);
    assert_eq!(walk.frame_a(Duree::from_millis(361)), 3);
}

#[test]
fn frame_a_tient_la_derniere_image_quand_loop_est_faux() {
    let seq = pose(&[1, 2, 3], 100, false, None);
    assert_eq!(seq.frame_a(Duree::from_millis(0)), 1);
    assert_eq!(seq.frame_a(Duree::from_millis(250)), 3);
    assert_eq!(seq.frame_a(Duree::from_secs(10)), 3);
}

#[test]
fn hold_choisit_l_image_tenue_a_la_fin() {
    let seq = pose(&[1, 2, 3], 100, false, Some(2));
    assert_eq!(seq.frame_a(Duree::from_millis(250)), 3);
    assert_eq!(seq.frame_a(Duree::from_secs(10)), 2);
}

#[test]
fn une_pose_sans_image_ou_sans_rythme_ne_panique_pas() {
    assert_eq!(pose(&[], 100, true, None).frame_a(Duree::from_secs(3)), 1);
    assert_eq!(pose(&[5, 6], 0, true, None).frame_a(Duree::from_secs(3)), 5);
}

#[test]
fn les_defauts_du_manifeste() {
    assert_eq!(frame_ms_par_defaut(), 150);
    assert_eq!(frame_size_par_defaut(), [128, 128]);
    assert_eq!(pose(&[1, 2, 3], 100, false, None).duree_totale(), Duree::from_millis(300));
}

#[test]
fn changer_pour_la_meme_pose_ne_redemarre_pas_l_animation() {
    let poses = minimal();
    let mut a = Animation::nouvelle();
    a.set_pose(&poses, POSE_WALK, Duree::from_millis(100));
    assert_eq!(a.pose, POSE_WALK);
    assert_eq!(a.pose_depuis, Duree::from_millis(100));
    // Rappelée à chaque image avec le même nom : le chronomètre ne bouge pas.
    a.set_pose(&poses, POSE_WALK, Duree::from_millis(300));
    assert_eq!(a.pose_depuis, Duree::from_millis(100));
    assert_eq!(a.frame_courante(&poses, Duree::from_millis(220)), 3);
}

#[test]
fn une_pose_absente_est_ignoree() {
    let poses = minimal();
    let mut a = Animation::nouvelle();
    a.set_pose(&poses, POSE_FALL, Duree::from_secs(1));
    assert_eq!(a.pose, POSE_STAND);
    assert_eq!(a.pose_depuis, Duree::zero());
}

#[test]
fn une_pose_disparue_affiche_l_image_un() {
    let mut a = Animation::nouvelle();
    a.set_pose(&minimal(), POSE_WALK, Duree::zero());
    assert_eq!(a.frame_courante(&[], Duree::from_secs(1)), 1);
    assert!(!a.pose_terminee(&[], Duree::from_secs(1)));
}

#[test]
fn une_boucle_ne_se_termine_jamais_une_sequence_si() {
    let poses = vec![
        PoseNommee { nom: POSE_STAND.to_string(), pose: pose(&[1, 2], 100, false, None) },
        PoseNommee { nom: POSE_WALK.to_string(), pose: pose(&[2, 3], 120, true, None) },
    ];
    let mut a = Animation::nouvelle();
    assert!(!a.pose_terminee(&poses, Duree::from_millis(199)));
    assert!(a.pose_terminee(&poses, Duree::from_millis(200)));
    a.set_pose(&poses, POSE_WALK, Duree::from_secs(1));
    assert!(!a.pose_terminee(&poses, Duree::from_secs(1000)));
}
