//! Les intentions : ce que le personnage a envie de faire.

use vstd::prelude::*;

verus! {

/// Les animations de jeu.
#[derive(Debug, Clone, Copy, PartialEq, Eq, Structural)]
pub enum Jeu {
    TeteQuiTourne,
    JambesQuiBalancent,
}

/// Une intention, tirée au sort ou choisie au menu.
#[derive(Debug, Clone, Copy, PartialEq, Eq, Structural)]
pub enum Intention {
    Flaner,
    SeReposer,
    Jouer(Jeu),
    Grimper,
}

} // verus!
