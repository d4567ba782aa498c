//! Les noms des fenêtres d'écran.

use vstd::prelude::*;
use vstd::string::StringExecFns;
use crate::texte::{decimal, ecrire_decimal};

verus! {

/// Le label de la fenêtre d'un écran, dérivé de son identité stable.
pub fn label_ecran(id: u64) -> (s: String)
    ensures
        s@ == "ecran-"@ + decimal(id as nat),
{
    let mut s = String::from_str("ecran-");
    ecrire_decimal(&mut s, id);
    s
}

} // verus!
