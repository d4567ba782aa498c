//! Les chemins du schéma d'images des personnages : `/blob/12` désigne
//! l'image 12 du personnage `blob`.
//!
//! On refuse tout ce qui n'a pas cette forme exacte plutôt que de composer
//! un chemin de fichier depuis une chaîne arbitraire : un `..` dans l'URL ne
//! doit pas pouvoir désigner un fichier hors du dossier des personnages.

use vstd::prelude::*;
use vstd::string::StringExecFns;
use vstd::string::StrSliceExecFns;

verus! {

/// Une image demandée : le personnage, et le numéro de son image.
#[derive(Debug, Clone, PartialEq, Eq)]
pub struct CheminDeFrame {
    pub personnage: String,
    pub numero: u32,
}

/// Le chemin sans ses barres de tête.
pub open spec fn sans_barres_en_tete(s: Seq<char>) -> Seq<char>
    decreases s.len(),
{
    if s.len() > 0 && s[0] == '/' {
        sans_barres_en_tete(s.drop_first())
    } else {
        s
    }
}

/// `t[k]` est la seule barre de `t`.
pub open spec fn barre_unique(t: Seq<char>, k: int) -> bool {
    &&& 0 <= k < t.len()
    &&& t[k] == '/'
    &&& forall|j: int| 0 <= j < t.len() && j != k ==> t[j] != '/'
}

/// Un caractère anodin dans un nom de personnage : une lettre ou un chiffre
/// ASCII, un tiret ou un souligné.
pub open spec fn caractere_sain(c: char) -> bool {
    ('a' <= c && c <= 'z') || ('A' <= c && c <= 'Z') || ('0' <= c && c <= '9') || c == '-' || c == '_'
}

/// Un nom de personnage sain : non vide, et fait de caractères anodins.
pub open spec fn nom_sain(s: Seq<char>) -> bool {
    s.len() > 0 && forall|i: int| 0 <= i < s.len() ==> caractere_sain(#[trigger] s[i])
}

/// Des chiffres décimaux, rien d'autre.
pub open spec fn que_des_chiffres(s: Seq<char>) -> bool {
    forall|i: int| 0 <= i < s.len() ==> '0' <= #[trigger] s[i] && s[i] <= '9'
}

/// La valeur des chiffres décimaux `s`.
pub open spec fn valeur(s: Seq<char>) -> nat
    decreases s.len(),
{
    if s.len() == 0 {
        0
    } else {
        valeur(s.drop_last()) * 10 + ((s.last() as nat) - ('0' as nat)) as nat
    }
}

/// Le nombre que lit `u32::from_str` : un `+` facultatif puis au moins un
/// chiffre, sans dépasser `u32::MAX`.
pub open spec fn numero_de(s: Seq<char>) -> Option<u32> {
    let d = if s.len() > 0 && s[0] == '+' {
        s.drop_first()
    } else {
        s
    };
    if d.len() > 0 && que_des_chiffres(d) && valeur(d) <= u32::MAX {
        Some(valeur(d) as u32)
    } else {
        None
    }
}

/// Ce que désigne un chemin du schéma : exactement deux segments après les
/// barres de tête, un nom sain et un numéro.
pub open spec fn analyse(chemin: Seq<char>) -> Option<(Seq<char>, u32)> {
    let t = sans_barres_en_tete(chemin);
    if exists|k: int| barre_unique(t, k) {
        let k = choose|k: int| barre_unique(t, k);
        let nom = t.take(k);
        let num = t.skip(k + 1);
        if nom_sain(nom) && numero_de(num) is Some {
            Some((nom, numero_de(num)->0))
        } else {
            None
        }
    } else {
        None
    }
}

proof fn lemme_sans_barres(s: Seq<char>, i: int)
    requires
        0 <= i <= s.len(),
        forall|j: int| 0 <= j < i ==> s[j] == '/',
    ensures
        sans_barres_en_tete(s) == sans_barres_en_tete(s.skip(i)),
    decreases i,
{
    if i > 0 {
        assert(s.skip(1) =~= s.drop_first());
        lemme_sans_barres(s.drop_first(), i - 1);
        assert(s.drop_first().skip(i - 1) =~= s.skip(i));
    } else {
        assert(s.skip(0) =~= s);
    }
}

fn lire_numero(chemin: &str, de: usize, a: usize) -> (r: Option<u32>)
    requires
        de <= a <= chemin@.len(),
    ensures
        r == numero_de(chemin@.subrange(de as int, a as int)),
{
    let ghost s = chemin@.subrange(de as int, a as int);
    let mut i = de;
    if i < a && chemin.get_char(i) == '+' {
        i = i + 1;
    }
    let ghost d = chemin@.subrange(i as int, a as int);
    assert(d =~= (if s.len() > 0 && s[0] == '+' {
        s.drop_first()
    } else {
        s
    }));
    if i == a {
        return None;
    }
    let debut = i;
    let mut v: u64 = 0;
    while i < a
        invariant
            de <= debut <= i <= a <= chemin@.len(),
            s == chemin@.subrange(de as int, a as int),
            d == chemin@.subrange(debut as int, a as int),
            d == (if s.len() > 0 && s[0] == '+' {
                s.drop_first()
            } else {
                s
            }),
            d.len() > 0,
            que_des_chiffres(chemin@.subrange(debut as int, i as int)),
            v == valeur(chemin@.subrange(debut as int, i as int)),
            v <= u32::MAX,
        decreases a - i,
    {
        let c = chemin.get_char(i);
        let ghost avant = chemin@.subrange(debut as int, i as int);
        let ghost apres = chemin@.subrange(debut as int, i + 1);
        assert(apres.drop_last() =~= avant);
        assert(apres.last() == c);
        if c < '0' || c > '9' {
            assert(d[i - debut] == c);
            return None;
        }
        let chiffre = (c as u32 - '0' as u32) as u64;
        v = v * 10 + chiffre;
        assert(v == valeur(apres));
        if v > 0xffff_ffffu64 {
            proof {
                if que_des_chiffres(d) {
                    assert(d.take(i + 1 - debut) =~= apres);
                    lemme_valeur_croit(d, (i + 1 - debut) as int);
                }
            }
            return None;
        }
        i = i + 1;
    }
    assert(chemin@.subrange(debut as int, i as int) =~= d);
    Some(v as u32)
}

/// La valeur d'un préfixe ne dépasse pas celle du tout.
proof fn lemme_valeur_croit(d: Seq<char>, n: int)
    requires
        0 <= n <= d.len(),
        que_des_chiffres(d),
    ensures
        valeur(d.take(n)) <= valeur(d),
    decreases d.len(),
{
    if n < d.len() {
        assert(d.drop_last().take(n) =~= d.take(n));
        lemme_valeur_croit(d.drop_last(), n);
        assert(que_des_chiffres(d.drop_last())) by {
            assert forall|i: int| 0 <= i < d.drop_last().len() implies '0' <= #[trigger] d.drop_last()[i]
                && d.drop_last()[i] <= '9' by {
                assert(d.drop_last()[i] == d[i]);
            }
        }
        assert(d.last() == d[d.len() - 1]);
    } else {
        assert(d.take(n) =~= d);
    }
}

fn nom_est_sain(chemin: &str, de: usize, a: usize) -> (r: bool)
    requires
        de <= a <= chemin@.len(),
    ensures
        r == nom_sain(chemin@.subrange(de as int, a as int)),
{
    let ghost nom = chemin@.subrange(de as int, a as int);
    if de == a {
        return false;
    }
    let mut j = de;
    while j < a
        invariant
            de <= j <= a <= chemin@.len(),
            nom == chemin@.subrange(de as int, a as int),
            forall|m: int| de <= m < j ==> caractere_sain(#[trigger] chemin@[m]),
        decreases a - j,
    {
        let c = chemin.get_char(j);
        let sain = ('a' <= c && c <= 'z') || ('A' <= c && c <= 'Z') || ('0' <= c && c <= '9') || c
            == '-' || c == '_';
        if !sain {
            assert(nom[j - de] == c);
            return false;
        }
        j = j + 1;
    }
    assert forall|m: int| 0 <= m < nom.len() implies caractere_sain(#[trigger] nom[m]) by {
        assert(nom[m] == chemin@[de + m]);
    }
    true
}

/// L'image que désigne un chemin du schéma `/personnage/numero`, ou `None`
/// s'il n'a pas exactement cette forme : deux segments après les barres de
/// tête, un nom fait de lettres et de chiffres ASCII, de tirets et de
/// soulignés, et un numéro que lit `u32::from_str`.
pub fn analyser_chemin_de_frame(chemin: &str) -> (r: Option<CheminDeFrame>)
    ensures
        match r {
            Some(f) => analyse(chemin@) == Some((f.personnage@, f.numero)),
            None => analyse(chemin@) is None,
        },
{
    let n = chemin.unicode_len();
    let mut debut: usize = 0;
    while debut < n && chemin.get_char(debut) == '/'
        invariant
            n == chemin@.len(),
            debut <= n,
            forall|j: int| 0 <= j < debut ==> chemin@[j] == '/',
        decreases n - debut,
    {
        debut = debut + 1;
    }
    proof {
        lemme_sans_barres(chemin@, debut as int);
    }
    let ghost t = chemin@.skip(debut as int);
    assert(sans_barres_en_tete(chemin@) == t) by {
        if t.len() > 0 {
            assert(t[0] == chemin@[debut as int]);
        }
    }
    // La seule barre qui reste, s'il n'y en a qu'une.
    let mut barre: Option<usize> = None;
    let mut i = debut;
    while i < n
        invariant
            n == chemin@.len(),
            debut <= i <= n,
            t == chemin@.skip(debut as int),
            sans_barres_en_tete(chemin@) == t,
            match barre {
                None => forall|j: int| debut <= j < i ==> chemin@[j] != '/',
                Some(k) => debut <= k < i && chemin@[k as int] == '/' && forall|j: int|
                    debut <= j < i && j != k ==> chemin@[j] != '/',
            },
        decreases n - i,
    {
        if chemin.get_char(i) == '/' {
            if let Some(k) = barre {
                assert forall|m: int| !barre_unique(t, m) by {
                    if barre_unique(t, m) {
                        assert(t[k - debut] == '/');
                        assert(t[i - debut] == '/');
                    }
                }
                return None;
            }
            barre = Some(i);
        }
        i = i + 1;
    }
    let k = match barre {
        None => {
            assert forall|m: int| !barre_unique(t, m) by {
                if barre_unique(t, m) {
                    assert(t[m] == chemin@[debut + m]);
                }
            }
            return None;
        },
        Some(k) => k,
    };
    let ghost kt = (k - debut) as int;
    assert(barre_unique(t, kt)) by {
        assert forall|j: int| 0 <= j < t.len() && j != kt implies t[j] != '/' by {
            assert(t[j] == chemin@[debut + j]);
        }
    }
    assert forall|m: int| barre_unique(t, m) implies m == kt by {
        if m != kt {
            assert(t[m] == '/');
        }
    }
    let ghost nom = t.take(kt);
    let ghost num = t.skip(kt + 1);
    assert(nom =~= chemin@.subrange(debut as int, k as int));
    assert(num =~= chemin@.subrange(k + 1, n as int));
    assert(analyse(chemin@) == (if nom_sain(nom) && numero_de(num) is Some {
        Some((nom, numero_de(num)->0))
    } else {
        None
    }));
    let numero = match lire_numero(chemin, k + 1, n) {
        Some(v) => v,
        None => {
            return None;
        },
    };
    if !nom_est_sain(chemin, debut, k) {
        return None;
    }
    let personnage = String::from_str(chemin.substring_char(debut, k));
    Some(CheminDeFrame { personnage, numero })
}

/// Loi : un chemin accepté ne désigne jamais un fichier hors du dossier des
/// personnages — le nom retenu n'est pas vide et ne contient ni point, ni
/// barre, ni antislash, donc ni `..` ni séparateur.
pub proof fn loi_un_chemin_accepte_ne_sort_pas_du_dossier(chemin: Seq<char>)
    ensures
        match analyse(chemin) {
            Some((nom, _)) => nom.len() > 0 && forall|i: int|
                0 <= i < nom.len() ==> #[trigger] nom[i] != '.' && nom[i] != '/' && nom[i] != '\\',
            None => true,
        },
{
    if let Some((nom, _)) = analyse(chemin) {
        assert forall|i: int| 0 <= i < nom.len() implies #[trigger] nom[i] != '.' && nom[i] != '/'
            && nom[i] != '\\' by {
            assert(caractere_sain(nom[i]));
        }
    }
}

} // verus!
