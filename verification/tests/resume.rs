use shimeji_desktop::behavior::intention::{Intention, Jeu};
use shimeji_desktop::sim::{observer, Observation, Resume};

fn obs(t_ms: u64, pose: &str, dort: bool, intention: Option<(Intention, u64)>) -> Observation {
    Observation {
        maintenant_ns: t_ms * 1_000_000,
        reflexe: false,
        dort,
        heure: 9,
        accroche: false,
        phase_grimpe: None,
        intention,
        pose: pose.to_string(),
        x: 10,
        y: 20,
    }
}

#[test]
fn le_resume_compte_sommeil_reveils_et_intentions() {
    let mut r = Resume::nouveau();
    observer(&mut r, obs(0, "stand", false, Some((Intention::Flaner, 0))));
    observer(&mut r, obs(16, "sleep", true, Some((Intention::SeReposer, 16))));
    observer(&mut r, obs(33, "sleep", true, Some((Intention::SeReposer, 16))));
    observer(&mut r, obs(50, "stand", false, Some((Intention::Jouer(Jeu::TeteQuiTourne), 50))));
    assert_eq!(r.images, 4);
    assert_eq!(r.intentions_tirees, 3);
    assert_eq!(r.images_endormi, 2);
    assert_eq!(r.images_endormi_par_heure[9], 2);
    assert_eq!(r.reveils, 1);
    assert_eq!(r.poses_vues, vec!["stand".to_string(), "sleep".to_string()]);
    let fnv = 0x100_0000_01b3u64;
    let attendue = 1u64.wrapping_mul(fnv).wrapping_add(2).wrapping_mul(fnv).wrapping_add(3);
    assert_eq!(r.signature, attendue);
}

#[test]
fn le_plus_long_blocage_est_la_plus_longue_immobilite() {
    let mut r = Resume::nouveau();
    let i = Some((Intention::Flaner, 0));
    observer(&mut r, obs(0, "stand", false, i));
    observer(&mut r, obs(100, "stand", false, i));
    observer(&mut r, obs(400, "stand", false, i));
    observer(&mut r, obs(500, "walk", false, i));
    observer(&mut r, obs(600, "walk", false, i));
    assert_eq!(r.blocage_max_ns, 400 * 1_000_000);
}

#[test]
fn un_plafond_ne_compte_qu_a_l_arrivee() {
    let mut r = Resume::nouveau();
    for (phase, accroche) in [(Some(false), true), (Some(true), true), (Some(true), true), (None, false), (Some(true), true)] {
        let mut o = obs(0, "climbWall", false, None);
        o.phase_grimpe = phase;
        o.accroche = accroche;
        o.reflexe = phase.is_none();
        observer(&mut r, o);
    }
    assert_eq!(r.plafonds_atteints, 2);
    assert_eq!(r.images_accroche, 4);
    assert_eq!(r.reflexes, 1);
}
