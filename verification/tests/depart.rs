use shimeji_desktop::depart::{Depart, EtapeDepart, PhaseDepart};
use shimeji_desktop::duree::Duree;

fn ms(n: u64) -> Duree {
    Duree::from_millis(n)
}

#[test]
fn il_se_ramasse_saute_puis_tombe() {
    let mut d = Depart::commence(ms(1_000));
    assert_eq!(d.avancer(ms(1_000)), EtapeDepart::Jouer { pose: "sit", impulsion: false });
    assert_eq!(d.phase, PhaseDepart::SeRamasse);
    // 120 ms plus tard il a fini de se ramasser : cette image joue encore
    // `sit`, la suivante `jump`.
    assert_eq!(d.avancer(ms(1_120)), EtapeDepart::Jouer { pose: "sit", impulsion: false });
    assert_eq!(d.phase, PhaseDepart::Saute);
    assert_eq!(d.avancer(ms(1_200)), EtapeDepart::Jouer { pose: "jump", impulsion: false });
    // 150 ms de saut : l'impulsion vers le haut, et la chute commence.
    assert_eq!(d.avancer(ms(1_270)), EtapeDepart::Jouer { pose: "jump", impulsion: true });
    assert_eq!(d.phase, PhaseDepart::Tombe);
    assert_eq!(d.depuis, ms(1_270));
    assert_eq!(d.avancer(ms(2_000)), EtapeDepart::Jouer { pose: "fall", impulsion: false });
}

#[test]
fn au_dela_de_trois_secondes_il_est_retire() {
    let mut d = Depart::commence(ms(1_000));
    assert_eq!(d.avancer(ms(4_000)), EtapeDepart::Jouer { pose: "sit", impulsion: false });
    assert_eq!(d.avancer(ms(4_001)), EtapeDepart::Retirer);
    // Le garde-fou porte sur le départ entier, pas sur la phase.
    assert_eq!(d.debut, ms(1_000));
}
