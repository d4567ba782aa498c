//! Les actions tenues : choisies au menu, et gardées tant qu'on ne les
//! arrête pas.

use vstd::prelude::*;
use super::intention::{Intention, Jeu};

verus! {

/// Une action tenue.
#[derive(Debug, Clone, Copy, PartialEq, Eq, Structural)]
pub enum Tenue {
    Flaner,
    Asseoir,
    BalancerLesJambes,
    Grimper,
    ResterAccroche,
}

/// L'intention qui sert une tenue.
pub open spec fn intention_de(t: Tenue) -> Intention {
    match t {
        Tenue::Flaner => Intention::Flaner,
        Tenue::Asseoir => Intention::SeReposer,
        Tenue::BalancerLesJambes => Intention::Jouer(Jeu::JambesQuiBalancent),
        Tenue::Grimper => Intention::Grimper,
        Tenue::ResterAccroche => Intention::Grimper,
    }
}

impl Tenue {
    /// L'intention qui sert cette tenue.
    pub fn intention(&self) -> (i: Intention)
        ensures
            i == intention_de(*self),
    {
        match self {
            Tenue::Flaner => Intention::Flaner,
            Tenue::Asseoir => Intention::SeReposer,
            Tenue::BalancerLesJambes => Intention::Jouer(Jeu::JambesQuiBalancent),
            Tenue::Grimper => Intention::Grimper,
            Tenue::ResterAccroche => Intention::Grimper,
        }
    }
}

} // verus!
