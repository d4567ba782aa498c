use shimeji_desktop::duree::Duree;
use shimeji_desktop::probe::Batterie;
use shimeji_desktop::sim::signaux_de_la_journee;

#[test]
fn la_chronologie_couvre_une_journee_entiere() {
    let h = |min| signaux_de_la_journee(min).heure;
    assert_eq!(h(0), 9, "la journée commence à 9 h");
    assert_eq!(h(60), 10);
    assert_eq!(h(15 * 60), 0, "9 h + 15 h = minuit");
    for min in 0..(24 * 60) {
        assert!(signaux_de_la_journee(min).heure < 24);
    }
}

#[test]
fn la_chronologie_alterne_presence_et_absence() {
    let inactif = |min| signaux_de_la_journee(min).inactivite;
    assert_eq!(inactif(30), Duree::zero(), "10 h : il travaille");
    assert!(inactif(15 * 60) > Duree::from_secs(120), "minuit : il est parti depuis longtemps");
}

#[test]
fn l_absence_se_compte_depuis_la_derniere_minute_au_clavier() {
    // 12 h pile (minute 180) : parti depuis 11 h 59, une minute.
    assert_eq!(signaux_de_la_journee(180).inactivite, Duree::from_secs(60));
    // 13 h 30 (minute 270) : une heure et demie et une minute.
    assert_eq!(signaux_de_la_journee(270).inactivite, Duree::from_secs(91 * 60));
    // 22 h (minute 780) : présent, il travaille tard.
    assert_eq!(signaux_de_la_journee(780).inactivite, Duree::zero());
    // 2 h (minute 1020) : parti depuis 21 h 59.
    assert_eq!(signaux_de_la_journee(1020).inactivite, Duree::from_secs(241 * 60));
}

#[test]
fn l_application_active_suit_la_presence() {
    let present = signaux_de_la_journee(30);
    assert_eq!(present.appli_active.as_deref(), Some("Code.exe"));
    let absent = signaux_de_la_journee(180);
    assert_eq!(absent.appli_active, None);
    assert_eq!(absent.batterie, Batterie { pourcent: None, sur_secteur: true });
    assert!(!absent.session_verrouillee);
}
