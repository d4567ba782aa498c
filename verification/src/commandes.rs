//! Ce que la fenêtre du catalogue demande au programme : la liste des
//! personnages installés.
//!
//! Parcourir les dossiers est une entrée-sortie, faite hors de la
//! bibliothèque ; ce qu'on fait des noms trouvés est ici.

use vstd::prelude::*;
use vstd::string::StringExecFns;
use crate::roster::{contient, inserer_nom, ordre_noms, trie, Ordre};

verus! {

/// Un pack présent sur le disque, tel que la fenêtre du catalogue a besoin
/// de le connaître.
#[derive(Debug, Clone, PartialEq, Eq)]
pub struct PackInstalle {
    pub nom: String,
    /// Est-ce celui qui s'affiche en ce moment ?
    pub actif: bool,
}

/// Le personnage affiché : le premier de la configuration, ou `blob`.
pub fn personnage_affiche(personnages: &[String]) -> (r: String)
    ensures
        r@ == if personnages@.len() > 0 {
            personnages@[0]@
        } else {
            "blob"@
        },
{
    if personnages.len() > 0 {
        personnages[0].clone()
    } else {
        String::from_str("blob")
    }
}

/// La bibliothèque, d'après les noms des dossiers de personnages trouvés
/// dans les deux racines : chaque nom une seule fois — la bibliothèque gagne
/// sur un homonyme du dossier livré —, par ordre alphabétique pour une liste
/// stable d'un affichage à l'autre, et marqué actif s'il est celui qui
/// s'affiche.
pub fn bibliotheque_depuis(trouves: &[String], affiche: &str) -> (r: Vec<PackInstalle>)
    ensures
        forall|i: int, j: int|
            0 <= i < j < r@.len() ==> ordre_noms(#[trigger] r@[i].nom@, #[trigger] r@[j].nom@)
                == Ordre::Avant,
        forall|m: Seq<char>|
            (exists|i: int| 0 <= i < r@.len() && #[trigger] r@[i].nom@ == m) <==> contient(
                trouves@,
                m,
            ),
        forall|i: int| 0 <= i < r@.len() ==> (#[trigger] r@[i]).actif == (r@[i].nom@ == affiche@),
{
    let mut noms: Vec<String> = Vec::new();
    let mut k: usize = 0;
    while k < trouves.len()
        invariant
            k <= trouves@.len(),
            trie(noms@),
            forall|j: int| 0 <= j < k ==> contient(noms@, (#[trigger] trouves@[j])@),
            forall|m: Seq<char>|
                contient(noms@, m) ==> exists|j: int| 0 <= j < k && (#[trigger] trouves@[j])@ == m,
        decreases trouves@.len() - k,
    {
        let ghost avant = noms@;
        inserer_nom(&mut noms, &trouves[k]);
        assert forall|m: Seq<char>| contient(noms@, m) implies exists|j: int|
            0 <= j < k + 1 && (#[trigger] trouves@[j])@ == m by {
            if contient(avant, m) {
                let j = choose|j: int| 0 <= j < k && (#[trigger] trouves@[j])@ == m;
            } else {
                assert(trouves@[k as int]@ == m);
            }
        }
        k = k + 1;
    }
    assert forall|m: Seq<char>| contient(trouves@, m) implies contient(noms@, m) by {
        let j = choose|j: int| 0 <= j < trouves@.len() && (#[trigger] trouves@[j])@ == m;
        assert(contient(noms@, trouves@[j]@));
    }
    let mut r: Vec<PackInstalle> = Vec::new();
    let mut i: usize = 0;
    while i < noms.len()
        invariant
            i <= noms@.len(),
            r@.len() == i,
            forall|j: int| 0 <= j < i ==> (#[trigger] r@[j]).nom@ == noms@[j]@,
            forall|j: int| 0 <= j < i ==> (#[trigger] r@[j]).actif == (r@[j].nom@ == affiche@),
        decreases noms@.len() - i,
    {
        let nom = noms[i].clone();
        let actif = crate::texte::egal(nom.as_str(), affiche);
        r.push(PackInstalle { nom, actif });
        i = i + 1;
    }
    assert forall|a: int, b: int| 0 <= a < b < r@.len() implies ordre_noms(
        #[trigger] r@[a].nom@,
        #[trigger] r@[b].nom@,
    ) == Ordre::Avant by {
        assert(ordre_noms(noms@[a]@, noms@[b]@) == Ordre::Avant);
    }
    assert forall|m: Seq<char>| (exists|a: int| 0 <= a < r@.len() && #[trigger] r@[a].nom@ == m)
        <==> contient(trouves@, m) by {
        if exists|a: int| 0 <= a < r@.len() && #[trigger] r@[a].nom@ == m {
            let a = choose|a: int| 0 <= a < r@.len() && #[trigger] r@[a].nom@ == m;
            assert(noms@[a]@ == m);
            assert(contient(noms@, m));
        }
        if contient(trouves@, m) {
            assert(contient(noms@, m));
            let a = choose|a: int| 0 <= a < noms@.len() && (#[trigger] noms@[a])@ == m;
            assert(r@[a].nom@ == m);
        }
    }
    r
}

} // verus!
