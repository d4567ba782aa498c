//! Une durée, en nanosecondes : la valeur que le programme sait du temps.
//!
//! Même domaine que `std::time::Duration` (de zéro à `u64::MAX` secondes
//! plus 999 999 999 ns), mais lisible par les contrats : sa vue est un
//! nombre entier de nanosecondes.

use vstd::prelude::*;

verus! {

/// Le plus grand nombre de nanosecondes représentable, celui de
/// `Duration::MAX`.
pub const DUREE_MAX_NS: u128 = 18_446_744_073_709_551_615_999_999_999u128;

/// Une durée. `nanos` ne dépasse jamais `DUREE_MAX_NS` quand elle sort
/// d'un constructeur de ce module.
#[derive(Debug, Clone, Copy, PartialEq, Eq, PartialOrd, Ord, Hash, Structural)]
pub struct Duree {
    pub nanos: u128,
}

impl View for Duree {
    type V = nat;

    open spec fn view(&self) -> nat {
        self.nanos as nat
    }
}

impl Duree {
    /// Une durée est bien formée si elle tient dans le domaine de `Duration`.
    pub open spec fn bien_formee(self) -> bool {
        self.nanos <= DUREE_MAX_NS
    }

    pub fn zero() -> (d: Duree)
        ensures
            d@ == 0,
            d.bien_formee(),
    {
        Duree { nanos: 0 }
    }

    pub fn from_secs(s: u64) -> (d: Duree)
        ensures
            d@ == s * 1_000_000_000,
            d.bien_formee(),
    {
        Duree { nanos: s as u128 * 1_000_000_000 }
    }

    pub fn from_millis(ms: u64) -> (d: Duree)
        ensures
            d@ == ms * 1_000_000,
            d.bien_formee(),
    {
        Duree { nanos: ms as u128 * 1_000_000 }
    }

    pub fn from_micros(us: u64) -> (d: Duree)
        ensures
            d@ == us * 1_000,
            d.bien_formee(),
    {
        Duree { nanos: us as u128 * 1_000 }
    }

    pub fn from_nanos(ns: u128) -> (d: Duree)
        requires
            ns <= DUREE_MAX_NS,
        ensures
            d@ == ns,
            d.bien_formee(),
    {
        Duree { nanos: ns }
    }

    /// Le nombre de millisecondes entières.
    pub fn as_millis(&self) -> (ms: u128)
        ensures
            ms == self@ / 1_000_000,
    {
        self.nanos / 1_000_000
    }

    /// Le nombre de microsecondes entières.
    pub fn as_micros(&self) -> (us: u128)
        ensures
            us == self@ / 1_000,
    {
        self.nanos / 1_000
    }

    pub fn as_nanos(&self) -> (ns: u128)
        ensures
            ns == self@,
    {
        self.nanos
    }

    /// `self - autre`, ramené à zéro s'il serait négatif.
    pub fn saturating_sub(self, autre: Duree) -> (d: Duree)
        ensures
            d@ == if self@ >= autre@ { self@ - autre@ } else { 0 },
            self.bien_formee() ==> d.bien_formee(),
    {
        if self.nanos >= autre.nanos {
            Duree { nanos: self.nanos - autre.nanos }
        } else {
            Duree { nanos: 0 }
        }
    }

    /// `self + autre`. Comme l'addition de `Duration`, elle n'est définie
    /// que si le résultat reste dans le domaine.
    pub fn plus(self, autre: Duree) -> (d: Duree)
        requires
            self@ + autre@ <= DUREE_MAX_NS,
        ensures
            d@ == self@ + autre@,
            d.bien_formee(),
    {
        Duree { nanos: self.nanos + autre.nanos }
    }

    /// `self + autre`, ou `None` si le résultat sortirait du domaine.
    pub fn checked_add(self, autre: Duree) -> (d: Option<Duree>)
        ensures
            d is Some <==> self@ + autre@ <= DUREE_MAX_NS,
            d matches Some(x) ==> x@ == self@ + autre@ && x.bien_formee(),
    {
        if autre.nanos <= DUREE_MAX_NS && self.nanos <= DUREE_MAX_NS - autre.nanos {
            Some(Duree { nanos: self.nanos + autre.nanos })
        } else {
            None
        }
    }
}

} // verus!
