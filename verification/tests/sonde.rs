use shimeji_desktop::duree::Duree;
use shimeji_desktop::probe::win32::{
    batterie_depuis, bouton_enfonce, inactivite_depuis, nom_de_l_executable, Win32Probe,
};
use shimeji_desktop::probe::{Batterie, Signaux};
use shimeji_desktop::signals::{ce_qui_mord, dans_le_creneau, utilisateur_actif, Mordants};

fn rien_de_special() -> Signaux {
    Signaux {
        inactivite: Duree::zero(),
        appli_active: None,
        heure: 15,
        batterie: Batterie { pourcent: None, sur_secteur: true },
        session_verrouillee: false,
    }
}

#[test]
fn l_inactivite_survit_au_tour_du_compteur() {
    assert_eq!(inactivite_depuis(5_000, 2_000), Duree::from_millis(3_000));
    // Le compteur est repassé par zéro entre les deux lectures.
    assert_eq!(inactivite_depuis(100, u32::MAX - 99), Duree::from_millis(200));
}

#[test]
fn deux_cent_cinquante_cinq_pour_cent_veut_dire_inconnu() {
    assert_eq!(batterie_depuis(255, 1), Batterie { pourcent: None, sur_secteur: true });
    assert_eq!(batterie_depuis(42, 0), Batterie { pourcent: Some(42), sur_secteur: false });
    assert_eq!(batterie_depuis(100, 255), Batterie { pourcent: Some(100), sur_secteur: true });
}

#[test]
fn le_bit_de_poids_fort_dit_que_le_bouton_est_enfonce() {
    assert!(bouton_enfonce(i16::MIN));
    assert!(bouton_enfonce(-32767));
    assert!(!bouton_enfonce(1));
    assert!(!bouton_enfonce(0));
}

#[test]
fn le_nom_de_l_executable_sans_son_chemin() {
    assert_eq!(nom_de_l_executable("C:\\Program Files\\Microsoft VS Code\\Code.exe"), "Code.exe");
    assert_eq!(nom_de_l_executable("Code.exe"), "Code.exe");
    assert_eq!(nom_de_l_executable("C:\\dossier\\"), "");
    assert_eq!(nom_de_l_executable("C:\\Jeux\\Éditeur.exe"), "Éditeur.exe");
}

#[test]
fn la_sonde_windows_se_construit() {
    assert_eq!(Win32Probe::new(), Win32Probe {});
}

#[test]
fn un_creneau_qui_passe_minuit_se_compare_en_ou() {
    assert!(dans_le_creneau(22, 22, 6));
    assert!(dans_le_creneau(3, 22, 6));
    assert!(!dans_le_creneau(6, 22, 6));
    assert!(!dans_le_creneau(15, 22, 6));
    assert!(dans_le_creneau(12, 12, 14));
    assert!(!dans_le_creneau(14, 12, 14));
}

#[test]
fn le_soir_des_reglages_par_defaut_va_de_22_h_a_6_h() {
    let soir = |h: u8| {
        let mut s = rien_de_special();
        s.heure = h;
        ce_qui_mord(&s, Duree::from_secs(120), 22, 6, 20).soir
    };
    for h in [22, 23, 0, 3, 5] {
        assert!(soir(h), "il est {h} h : c'est le soir ou la nuit");
    }
    for h in [6, 12, 18, 21] {
        assert!(!soir(h), "il est {h} h : ce n'est pas le soir");
    }
}

#[test]
fn sans_batterie_rien_ne_fatigue() {
    let mut s = rien_de_special();
    s.batterie = Batterie { pourcent: None, sur_secteur: false };
    assert!(!ce_qui_mord(&s, Duree::from_secs(120), 22, 6, 20).batterie_faible);
}

#[test]
fn la_batterie_faible_ne_mord_que_debranchee() {
    let mut s = rien_de_special();
    s.batterie = Batterie { pourcent: Some(10), sur_secteur: true };
    assert!(!ce_qui_mord(&s, Duree::from_secs(120), 22, 6, 20).batterie_faible);
    s.batterie = Batterie { pourcent: Some(10), sur_secteur: false };
    assert!(ce_qui_mord(&s, Duree::from_secs(120), 22, 6, 20).batterie_faible);
}

#[test]
fn le_seuil_d_inactivite_est_net() {
    let mut s = rien_de_special();
    s.inactivite = Duree::from_secs(119);
    assert!(!ce_qui_mord(&s, Duree::from_secs(120), 22, 6, 20).inactif);
    s.inactivite = Duree::from_secs(121);
    assert!(ce_qui_mord(&s, Duree::from_secs(120), 22, 6, 20).inactif);
}

#[test]
fn utilisateur_actif_partage_le_seuil_de_l_inactivite() {
    let seuil = Duree::from_secs(120);
    let mut s = rien_de_special();
    s.inactivite = Duree::from_secs(119);
    assert!(utilisateur_actif(&s, seuil));
    assert!(!ce_qui_mord(&s, seuil, 22, 6, 20).inactif);
    s.inactivite = Duree::from_secs(120);
    assert!(!utilisateur_actif(&s, seuil));
    assert!(ce_qui_mord(&s, seuil, 22, 6, 20).inactif);
    s.inactivite = Duree::from_secs(121);
    assert!(!utilisateur_actif(&s, seuil));
}

#[test]
fn a_quinze_heures_rien_ne_mord() {
    let m = ce_qui_mord(&rien_de_special(), Duree::from_secs(120), 22, 6, 20);
    assert_eq!(m, Mordants { inactif: false, soir: false, batterie_faible: false });
}
