//! Windows est-il en mode « Ne pas déranger » ? La lecture de l'état se fait
//! hors de la bibliothèque ; ici, l'interprétation de ses octets.

use vstd::prelude::*;

verus! {

/// Le profil actif : les quatre premiers octets, en petit-boutiste.
pub open spec fn profil_actif(o: Seq<u8>) -> int {
    o[0] + 256 * o[1] + 65536 * o[2] + 16777216 * o[3]
}

/// Les quatre premiers octets sont le profil actif : 0 quand le mode est
/// désactivé, autre chose sinon. Moins de quatre octets : on ne sait pas, et
/// l'on répond « non ».
pub fn interpreter(octets: &[u8]) -> (actif: bool)
    ensures
        actif == (octets@.len() >= 4 && profil_actif(octets@) != 0),
{
    if octets.len() < 4 {
        return false;
    }
    let profil: u32 = octets[0] as u32 + 256 * (octets[1] as u32) + 65536 * (octets[2] as u32)
        + 16777216 * (octets[3] as u32);
    profil != 0
}

} // verus!
