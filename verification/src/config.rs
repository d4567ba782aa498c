//! Ce que la bibliothèque fait du texte d'un fichier de configuration ou
//! d'un manifeste, une fois lu : en retirer la marque d'ordre des octets
//! que le Bloc-notes et PowerShell écrivent en tête, et que le lecteur JSON
//! refuse avec un message trompeur.

use vstd::prelude::*;
use vstd::string::StringExecFns;
use vstd::string::StrSliceExecFns;

verus! {

/// La marque d'ordre des octets, telle qu'elle apparaît une fois l'UTF-8
/// décodé.
pub const BOM: char = '\u{feff}';

/// Le texte sans sa marque d'ordre des octets de tête, s'il en a une.
pub open spec fn sans_bom_spec(texte: Seq<char>) -> Seq<char> {
    if texte.len() > 0 && texte[0] == BOM {
        texte.drop_first()
    } else {
        texte
    }
}

/// Retire la marque d'ordre des octets de tête, s'il y en a une ; une
/// seule, comme `str::strip_prefix`.
pub fn sans_bom(texte: &str) -> (r: String)
    ensures
        r@ == sans_bom_spec(texte@),
{
    let n = texte.unicode_len();
    if n > 0 && texte.get_char(0) == BOM {
        assert(texte@.subrange(1, n as int) =~= texte@.drop_first());
        String::from_str(texte.substring_char(1, n))
    } else {
        String::from_str(texte)
    }
}

/// Où prendre le dossier d'un personnage.
#[derive(Debug, Clone, Copy, PartialEq, Eq, Structural)]
pub enum Racine {
    /// La bibliothèque, là où le catalogue installe.
    Bibliotheque,
    /// Le dossier des personnages livrés avec le programme.
    Livre,
}

/// Où prendre le personnage : la bibliothèque d'abord, si elle existe et
/// qu'il y est ; le dossier livré ensuite, s'il y est ; nulle part sinon.
pub fn racine_du_personnage(dans_la_bibliotheque: bool, dans_le_livre: bool) -> (r: Option<Racine>)
    ensures
        r == if dans_la_bibliotheque {
            Some(Racine::Bibliotheque)
        } else if dans_le_livre {
            Some(Racine::Livre)
        } else {
            None::<Racine>
        },
{
    if dans_la_bibliotheque {
        Some(Racine::Bibliotheque)
    } else if dans_le_livre {
        Some(Racine::Livre)
    } else {
        None
    }
}

} // verus!
