//! Le menu du clic droit affiché en natif : ce que devient le choix que
//! rend le système.
//!
//! Le système n'identifie une entrée que par un entier : le rang de la
//! ligne plus un, parce que zéro veut dire « rien de choisi ».

use vstd::prelude::*;
use crate::menu_perso::Ligne;

verus! {

/// L'identifiant de l'entrée choisie, d'après l'entier que rend le menu
/// natif : `None` si rien n'a été choisi (zéro), si l'entier ne désigne
/// aucune ligne, ou s'il désigne une ligne qui n'est pas une entrée.
pub fn entree_choisie(lignes: &[Ligne], choix: i32) -> (r: Option<&'static str>)
    ensures
        r == if 1 <= choix <= lignes@.len() {
            match lignes@[choix - 1] {
                Ligne::Entree { id, .. } => Some(id),
                _ => None,
            }
        } else {
            None::<&'static str>
        },
{
    if choix < 1 {
        return None;
    }
    let rang = (choix - 1) as usize;
    if rang >= lignes.len() {
        return None;
    }
    match lignes[rang] {
        Ligne::Entree { id, .. } => Some(id),
        _ => None,
    }
}

} // verus!
