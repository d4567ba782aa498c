//! Ce que la sonde Windows tire des valeurs brutes que le système lui
//! rend : l'inactivité depuis deux compteurs, la batterie depuis l'état
//! d'alimentation, le nom de l'application depuis le chemin de son image,
//! l'état d'un bouton depuis son mot d'état.
//!
//! Les appels au système eux-mêmes vivent hors de la bibliothèque.

use vstd::prelude::*;
use vstd::string::StringExecFns;
use vstd::string::StrSliceExecFns;
use crate::duree::Duree;
use super::Batterie;

verus! {

/// La sonde Windows : l'objet qui porte les lectures du système.
#[derive(Debug, Clone, Copy, PartialEq, Eq)]
pub struct Win32Probe {}

impl Win32Probe {
    pub fn new() -> (p: Win32Probe)
        ensures
            p == (Win32Probe {}),
    {
        Win32Probe {}
    }
}

/// L'écart, en millisecondes, entre deux lectures d'un compteur qui repasse
/// à zéro au bout de 2³² ms : l'écart vrai malgré le tour.
pub open spec fn ecart_circulaire(maintenant: u32, avant: u32) -> nat {
    ((maintenant - avant) % 0x1_0000_0000) as nat
}

/// Depuis combien de temps l'utilisateur n'a touché à rien, d'après le
/// compteur de millisecondes du système maintenant et à la dernière entrée.
pub fn inactivite_depuis(maintenant_ms: u32, derniere_entree_ms: u32) -> (d: Duree)
    ensures
        d@ == ecart_circulaire(maintenant_ms, derniere_entree_ms) * 1_000_000,
        d.bien_formee(),
{
    let ecart = maintenant_ms.wrapping_sub(derniere_entree_ms);
    assert(ecart as nat == ecart_circulaire(maintenant_ms, derniere_entree_ms)) by {
        if maintenant_ms >= derniere_entree_ms {
            assert((maintenant_ms - derniere_entree_ms) % 0x1_0000_0000 == maintenant_ms
                - derniere_entree_ms);
        } else {
            assert((maintenant_ms - derniere_entree_ms) % 0x1_0000_0000 == maintenant_ms
                - derniere_entree_ms + 0x1_0000_0000);
        }
    }
    Duree::from_millis(ecart as u64)
}

/// L'état de la batterie d'après l'état d'alimentation brut : un
/// pourcentage au-delà de 100 (255) veut dire « inconnu » ; la ligne
/// secteur vaut 0 hors secteur, et « inconnu » compte comme sur secteur.
pub fn batterie_depuis(pourcent_brut: u8, secteur_brut: u8) -> (b: Batterie)
    ensures
        b.pourcent == (if pourcent_brut <= 100 {
            Some(pourcent_brut)
        } else {
            None
        }),
        b.sur_secteur == (secteur_brut != 0),
{
    let pourcent = if pourcent_brut <= 100 {
        Some(pourcent_brut)
    } else {
        None
    };
    Batterie { pourcent, sur_secteur: secteur_brut != 0 }
}

/// Un bouton est enfoncé quand le bit de poids fort de son mot d'état est
/// levé — soit quand le mot, lu signé, est négatif.
pub fn bouton_enfonce(etat: i16) -> (r: bool)
    ensures
        r == (etat < 0),
{
    let r = (etat as u16 & 0x8000u16) != 0;
    assert(((etat as u16 & 0x8000u16) != 0) == (etat < 0)) by (bit_vector);
    r
}

/// Le dernier segment d'un chemin Windows : ce qui suit le dernier
/// antislash, ou le chemin entier s'il n'en a pas.
pub open spec fn est_dernier_segment(chemin: Seq<char>, nom: Seq<char>) -> bool {
    exists|k: int|
        0 <= k <= chemin.len() && nom == chemin.subrange(k, chemin.len() as int) && (k == 0 || chemin[k
            - 1] == '\\') && forall|j: int| k <= j < chemin.len() ==> chemin[j] != '\\'
}

/// Le nom de fichier de l'exécutable, tiré du chemin complet de son image :
/// le nom seul, que l'utilisateur saura écrire dans sa configuration.
pub fn nom_de_l_executable(chemin: &str) -> (nom: String)
    ensures
        est_dernier_segment(chemin@, nom@),
{
    let n = chemin.unicode_len();
    let mut k: usize = n;
    while k > 0 && chemin.get_char(k - 1) != '\\'
        invariant
            n == chemin@.len(),
            k <= n,
            forall|j: int| k <= j < n ==> chemin@[j] != '\\',
        decreases k,
    {
        k = k - 1;
    }
    let nom = String::from_str(chemin.substring_char(k, n));
    assert(k == 0 || chemin@[k - 1] == '\\');
    nom
}

} // verus!
