use shimeji_desktop::maj::{
    a_retenir, apres_installation, apres_verification, doit_signaler, libelle,
    vient_d_etre_mis_a_jour, ApresInstallation, EtatMaj, ToastMaj, Verification,
};

#[test]
fn chaque_etat_a_son_libelle() {
    assert_eq!(libelle(&EtatMaj::Repos), "Vérifier les mises à jour…");
    assert_eq!(libelle(&EtatMaj::Disponible("0.4.0".into())), "Mettre à jour vers la v0.4.0");
    assert_eq!(libelle(&EtatMaj::AJour("0.3.0".into())), "À jour (v0.3.0)");
    assert_eq!(libelle(&EtatMaj::Impossible), "Vérification impossible — réessayer");
}

#[test]
fn une_version_changee_depuis_le_dernier_lancement_est_une_mise_a_jour() {
    assert!(vient_d_etre_mis_a_jour("0.3.0", "0.4.0"));
}

#[test]
fn meme_version_pas_de_mise_a_jour() {
    assert!(!vient_d_etre_mis_a_jour("0.4.0", "0.4.0"));
}

#[test]
fn sans_version_retenue_on_ne_sait_pas_donc_on_ne_dit_rien() {
    assert!(!vient_d_etre_mis_a_jour("", "0.4.0"));
}

#[test]
fn la_version_du_lancement_n_est_retenue_que_si_elle_change() {
    assert!(a_retenir("", "0.4.0"));
    assert!(a_retenir("0.3.0", "0.4.0"));
    assert!(!a_retenir("0.4.0", "0.4.0"));
}

#[test]
fn une_version_deja_signalee_ne_l_est_plus() {
    assert!(!doit_signaler("0.4.0", "0.4.0"));
    assert!(doit_signaler("0.3.0", "0.4.0"));
    assert!(doit_signaler("", "0.4.0"));
}

#[test]
fn une_version_trouvee_est_dite_puis_installee() {
    let r = apres_verification(Verification::Trouvee("0.5.0".into()), "0.4.0", false);
    assert_eq!(r.etat, EtatMaj::Disponible("0.5.0".into()));
    assert_eq!(r.toast, ToastMaj::InstallationEnCours("0.5.0".into()));
    assert!(r.installer);
}

#[test]
fn en_mise_au_point_on_n_installe_jamais() {
    let r = apres_verification(Verification::Trouvee("0.5.0".into()), "0.4.0", true);
    assert_eq!(r.etat, EtatMaj::Disponible("0.5.0".into()));
    assert_eq!(r.toast, ToastMaj::Aucun);
    assert!(!r.installer);
}

#[test]
fn a_jour_le_clic_le_dit_avec_la_version_courante() {
    let r = apres_verification(Verification::DejaAJour, "0.4.0", false);
    assert_eq!(r.etat, EtatMaj::AJour("0.4.0".into()));
    assert_eq!(r.toast, ToastMaj::AJour("0.4.0".into()));
    assert!(!r.installer);
}

#[test]
fn un_serveur_injoignable_est_dit_en_francais() {
    let r = apres_verification(Verification::Echec, "0.4.0", false);
    assert_eq!(r.etat, EtatMaj::Impossible);
    assert_eq!(r.toast, ToastMaj::Impossible("serveur de mise à jour injoignable"));
    let r = apres_verification(Verification::ClientIndisponible, "0.4.0", false);
    assert_eq!(r.toast, ToastMaj::Impossible("mise à jour mal configurée"));
}

#[test]
fn une_installation_ratee_laisse_la_version_courante_et_le_dit() {
    assert_eq!(apres_installation(true), ApresInstallation::Redemarrer);
    assert_eq!(
        apres_installation(false),
        ApresInstallation::Signaler(EtatMaj::Impossible, ToastMaj::Impossible("l'installation a échoué"))
    );
}
