//! L'état de la mise à jour, tel que le dit l'entrée du tray : le libellé
//! EST l'état. Et la question « vient-on d'être mis à jour ? ».

use vstd::prelude::*;
use vstd::string::StringExecFns;
use crate::texte::egal;

verus! {

/// Ce que dit l'entrée du tray.
#[derive(Debug, Clone, PartialEq, Eq)]
pub enum EtatMaj {
    /// Rien de vérifié à la main : un clic lance la vérification.
    Repos,
    /// Une version plus récente existe : un clic l'installe.
    Disponible(String),
    /// Vérifié à la main, rien de plus récent.
    AJour(String),
    /// Réseau coupé, serveur injoignable… Un clic réessaie.
    Impossible,
}

pub enum EtatMajVue {
    Repos,
    Disponible(Seq<char>),
    AJour(Seq<char>),
    Impossible,
}

impl View for EtatMaj {
    type V = EtatMajVue;

    open spec fn view(&self) -> EtatMajVue {
        match self {
            EtatMaj::Repos => EtatMajVue::Repos,
            EtatMaj::Disponible(v) => EtatMajVue::Disponible(v@),
            EtatMaj::AJour(v) => EtatMajVue::AJour(v@),
            EtatMaj::Impossible => EtatMajVue::Impossible,
        }
    }
}

/// Le libellé de l'entrée du tray pour chaque état.
pub open spec fn libelle_de(e: EtatMajVue) -> Seq<char> {
    match e {
        EtatMajVue::Repos => "Vérifier les mises à jour…"@,
        EtatMajVue::Disponible(v) => "Mettre à jour vers la v"@ + v,
        EtatMajVue::AJour(v) => "À jour (v"@ + v + ")"@,
        EtatMajVue::Impossible => "Vérification impossible — réessayer"@,
    }
}

/// Le libellé de l'entrée du tray pour cet état.
pub fn libelle(etat: &EtatMaj) -> (s: String)
    ensures
        s@ == libelle_de(etat@),
{
    match etat {
        EtatMaj::Repos => String::from_str("Vérifier les mises à jour…"),
        EtatMaj::Disponible(v) => {
            let mut s = String::from_str("Mettre à jour vers la v");
            s.append(v.as_str());
            s
        },
        EtatMaj::AJour(v) => {
            let mut s = String::from_str("À jour (v");
            s.append(v.as_str());
            s.append(")");
            s
        },
        EtatMaj::Impossible => String::from_str("Vérification impossible — réessayer"),
    }
}

/// Une mise à jour vient-elle de s'installer ? Vrai si la version retenue au
/// dernier lancement existe et diffère de la courante. Rien de retenu
/// (`""`) : on ne peut rien affirmer, et l'on se tait.
pub fn vient_d_etre_mis_a_jour(derniere_lancee: &str, courante: &str) -> (r: bool)
    ensures
        r == (derniere_lancee@.len() != 0 && derniere_lancee@ != courante@),
{
    !derniere_lancee.is_empty() && !egal(derniere_lancee, courante)
}

/// Au démarrage : faut-il retenir la version de ce lancement ? Oui dès
/// qu'elle diffère de celle retenue.
pub fn a_retenir(derniere_lancee: &str, courante: &str) -> (r: bool)
    ensures
        r == (derniere_lancee@ != courante@),
{
    !egal(derniere_lancee, courante)
}

/// Une version trouvée est-elle à annoncer, sachant celle déjà signalée ?
pub open spec fn a_signaler(deja_signalee: Seq<char>, version: Seq<char>) -> bool {
    deja_signalee != version
}

/// Une version trouvée en arrière-plan n'est annoncée par un toast qu'une
/// fois : pas si c'est celle déjà signalée.
pub fn doit_signaler(deja_signalee: &str, version: &str) -> (r: bool)
    ensures
        r == a_signaler(deja_signalee@, version@),
{
    !egal(deja_signalee, version)
}

/// Loi : une version dont le toast est parti, et qui a donc été retenue
/// comme signalée, ne l'est plus jamais ; une autre version l'est.
pub proof fn loi_une_version_n_est_signalee_qu_une_fois(version: Seq<char>, autre: Seq<char>)
    ensures
        !a_signaler(version, version),
        autre != version ==> a_signaler(version, autre),
{
}

// ── Le clic sur l'entrée du tray ────────────────────────────────────────

/// Ce qu'a rendu la vérification demandée au clic.
#[derive(Debug, Clone, PartialEq, Eq)]
pub enum Verification {
    /// Le client de mise à jour n'a pas pu être construit.
    ClientIndisponible,
    /// Une version plus récente existe.
    Trouvee(String),
    /// Rien de plus récent.
    DejaAJour,
    /// Le serveur est injoignable, ou a répondu une erreur.
    Echec,
}

/// Le toast qui accompagne une étape de la mise à jour.
#[derive(Debug, Clone, PartialEq, Eq)]
pub enum ToastMaj {
    Aucun,
    /// « À jour », avec la version courante.
    AJour(String),
    /// « Vérification impossible », avec la raison donnée à l'utilisateur.
    Impossible(&'static str),
    /// « Mise à jour vers la vX… », avant le téléchargement.
    InstallationEnCours(String),
}

pub enum ToastMajVue {
    Aucun,
    AJour(Seq<char>),
    Impossible(Seq<char>),
    InstallationEnCours(Seq<char>),
}

impl View for ToastMaj {
    type V = ToastMajVue;

    open spec fn view(&self) -> ToastMajVue {
        match self {
            ToastMaj::Aucun => ToastMajVue::Aucun,
            ToastMaj::AJour(v) => ToastMajVue::AJour(v@),
            ToastMaj::Impossible(r) => ToastMajVue::Impossible(r@),
            ToastMaj::InstallationEnCours(v) => ToastMajVue::InstallationEnCours(v@),
        }
    }
}

/// Ce que fait le clic une fois la vérification rendue : le libellé du
/// tray, le toast, et s'il faut télécharger et installer.
#[derive(Debug, Clone, PartialEq, Eq)]
pub struct ApresVerification {
    pub etat: EtatMaj,
    pub toast: ToastMaj,
    pub installer: bool,
}

/// La raison affichée quand le client manque.
pub open spec fn raison_client() -> Seq<char> {
    "mise à jour mal configurée"@
}

/// La raison affichée quand le serveur ne répond pas.
pub open spec fn raison_serveur() -> Seq<char> {
    "serveur de mise à jour injoignable"@
}

/// La raison affichée quand l'installation échoue.
pub open spec fn raison_installation() -> Seq<char> {
    "l'installation a échoué"@
}

/// Ce que le clic fait de la vérification. Une version trouvée est dite et
/// installée — sauf dans une construction de mise au point, qui n'installe
/// jamais : elle porte souvent une version plus ancienne que celle
/// installée.
pub fn apres_verification(v: Verification, courante: &str, mise_au_point: bool) -> (r: ApresVerification)
    ensures
        match v {
            Verification::ClientIndisponible => r.etat@ == EtatMajVue::Impossible && r.toast@
                == ToastMajVue::Impossible(raison_client()) && !r.installer,
            Verification::DejaAJour => r.etat@ == EtatMajVue::AJour(courante@) && r.toast@
                == ToastMajVue::AJour(courante@) && !r.installer,
            Verification::Echec => r.etat@ == EtatMajVue::Impossible && r.toast@ == ToastMajVue::Impossible(
                raison_serveur(),
            ) && !r.installer,
            Verification::Trouvee(version) => r.etat@ == EtatMajVue::Disponible(version@) && if mise_au_point {
                r.toast@ == ToastMajVue::Aucun && !r.installer
            } else {
                r.toast@ == ToastMajVue::InstallationEnCours(version@) && r.installer
            },
        },
{
    match v {
        Verification::ClientIndisponible => ApresVerification {
            etat: EtatMaj::Impossible,
            toast: ToastMaj::Impossible("mise à jour mal configurée"),
            installer: false,
        },
        Verification::DejaAJour => ApresVerification {
            etat: EtatMaj::AJour(String::from_str(courante)),
            toast: ToastMaj::AJour(String::from_str(courante)),
            installer: false,
        },
        Verification::Echec => ApresVerification {
            etat: EtatMaj::Impossible,
            toast: ToastMaj::Impossible("serveur de mise à jour injoignable"),
            installer: false,
        },
        Verification::Trouvee(version) => {
            if mise_au_point {
                ApresVerification { etat: EtatMaj::Disponible(version), toast: ToastMaj::Aucun, installer: false }
            } else {
                let annonce = version.clone();
                ApresVerification {
                    etat: EtatMaj::Disponible(version),
                    toast: ToastMaj::InstallationEnCours(annonce),
                    installer: true,
                }
            }
        },
    }
}

/// Ce qui suit le téléchargement et l'installation.
#[derive(Debug, Clone, PartialEq, Eq)]
pub enum ApresInstallation {
    /// Installée : l'application redémarre dans la nouvelle version.
    Redemarrer,
    /// Échouée : l'application continue dans la version qu'elle a, et le
    /// dit.
    Signaler(EtatMaj, ToastMaj),
}

/// Ce que le clic fait du résultat de l'installation.
pub fn apres_installation(reussie: bool) -> (r: ApresInstallation)
    ensures
        reussie ==> r == ApresInstallation::Redemarrer,
        !reussie ==> (r matches ApresInstallation::Signaler(e, t) && e@ == EtatMajVue::Impossible && t@
            == ToastMajVue::Impossible(raison_installation())),
{
    if reussie {
        ApresInstallation::Redemarrer
    } else {
        ApresInstallation::Signaler(EtatMaj::Impossible, ToastMaj::Impossible("l'installation a échoué"))
    }
}

} // verus!
