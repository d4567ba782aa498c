//! L'horloge, injectée : dire quel temps s'est écoulé depuis le démarrage.
//!
//! `SystemClock` est le seul endroit qui lit l'horloge du système ;
//! `FakeClock` est celle des tests, qui n'avance que quand on le lui demande.

use vstd::prelude::*;
use crate::duree::{Duree, DUREE_MAX_NS};

verus! {

/// `std::time::Instant`, l'instant de l'horloge monotone du système.
#[verifier::external_type_specification]
#[verifier::external_body]
pub struct ExInstant(std::time::Instant);

/// Ce que le reste du programme sait du temps : une durée depuis le
/// démarrage, monotone et relative.
pub trait Clock {
    fn elapsed(&self) -> Duree;
}

/// L'instant présent.
///
/// Appelle `Instant::now`. Le résultat dépend du moment de l'appel : le
/// contrat n'en dit rien.
#[verifier::external_body]
fn instant_present() -> std::time::Instant {
    std::time::Instant::now()
}

/// Le temps écoulé depuis `debut`.
///
/// Appelle `Instant::elapsed`, puis convertit la `Duration` en nanosecondes.
/// Le contrat dit seulement que le résultat est une durée valide : sa valeur
/// dépend de l'horloge du système.
#[verifier::external_body]
fn ecoule_depuis(debut: &std::time::Instant) -> (d: Duree)
    ensures
        d.bien_formee(),
{
    Duree { nanos: debut.elapsed().as_nanos() }
}

/// L'horloge réelle.
pub struct SystemClock {
    start: std::time::Instant,
}

impl SystemClock {
    pub fn new() -> Self {
        SystemClock { start: instant_present() }
    }
}

impl Clock for SystemClock {
    fn elapsed(&self) -> (d: Duree)
        ensures
            d.bien_formee(),
    {
        ecoule_depuis(&self.start)
    }
}

/// L'horloge des tests : elle démarre à zéro et n'avance que quand on le
/// lui demande.
pub struct FakeClock {
    now: Duree,
}

impl View for FakeClock {
    type V = nat;

    closed spec fn view(&self) -> nat {
        self.now@
    }
}

impl FakeClock {
    pub fn new() -> (c: Self)
        ensures
            c@ == 0,
    {
        FakeClock { now: Duree::zero() }
    }

    /// Avance de `d`. Comme l'addition de deux `Duration`, elle n'est pas
    /// définie au-delà de la plus grande durée.
    pub fn advance(&mut self, d: Duree)
        requires
            old(self)@ + d@ <= DUREE_MAX_NS,
        ensures
            final(self)@ == old(self)@ + d@,
    {
        self.now = self.now.plus(d);
    }

    /// Positionne le temps absolu.
    pub fn set(&mut self, d: Duree)
        requires
            d.bien_formee(),
        ensures
            final(self)@ == d@,
    {
        self.now = d;
    }
}

impl Clock for FakeClock {
    fn elapsed(&self) -> (d: Duree)
        ensures
            d@ == self@,
    {
        self.now
    }
}

} // verus!
