//! La notification maison, montrée quand Windows est en mode « Ne pas
//! déranger » : où poser sa fenêtre, et l'appel qui lui donne son texte.

use vstd::prelude::*;
use vstd::string::StringExecFns;

verus! {

/// `a + b - c - d` en arithmétique 32 bits, qui reboucle au-delà des bornes
/// d'un `i32`.
pub open spec fn bord_moins(a: i32, b: i32, c: i32, d: i32) -> i32 {
    vstd::wrapping::i32_specs::wrapping_sub(
        vstd::wrapping::i32_specs::wrapping_sub(vstd::wrapping::i32_specs::wrapping_add(a, b), c),
        d,
    )
}

/// Où poser une fenêtre de `taille` dans le coin bas-droit de `zone`
/// (x, y, largeur, hauteur), à `ecart` du bord. Le calcul se fait sur des
/// `i32`, qui rebouclent hors de leurs bornes.
pub fn coin_bas_droit(zone: (i32, i32, i32, i32), taille: (i32, i32), ecart: i32) -> (r: (i32, i32))
    ensures
        r.0 == bord_moins(zone.0, zone.2, taille.0, ecart),
        r.1 == bord_moins(zone.1, zone.3, taille.1, ecart),
        i32::MIN <= zone.0 + zone.2 <= i32::MAX && i32::MIN <= zone.0 + zone.2 - taille.0 <= i32::MAX
            && i32::MIN <= zone.0 + zone.2 - taille.0 - ecart <= i32::MAX
            ==> r.0 == zone.0 + zone.2 - taille.0 - ecart,
        i32::MIN <= zone.1 + zone.3 <= i32::MAX && i32::MIN <= zone.1 + zone.3 - taille.1 <= i32::MAX
            && i32::MIN <= zone.1 + zone.3 - taille.1 - ecart <= i32::MAX
            ==> r.1 == zone.1 + zone.3 - taille.1 - ecart,
{
    let (x, y, l, h) = zone;
    (
        x.wrapping_add(l).wrapping_sub(taille.0).wrapping_sub(ecart),
        y.wrapping_add(h).wrapping_sub(taille.1).wrapping_sub(ecart),
    )
}

/// Le chiffre hexadécimal minuscule de `n`, de 0 à 15.
pub open spec fn chiffre_hex(n: nat) -> char {
    if n < 10 {
        (n + 48) as char
    } else {
        (n + 87) as char
    }
}

/// Un caractère écrit dans une chaîne JSON par serde_json : le guillemet et
/// l'antislash précédés d'un antislash ; le retour arrière, la tabulation,
/// le saut de ligne, le saut de page et le retour chariot par leur lettre ;
/// les autres caractères de contrôle en `\u00xx`, chiffres minuscules ; tout
/// le reste tel quel.
pub open spec fn echappe_car(c: char) -> Seq<char> {
    if c == '"' {
        seq!['\\', '"']
    } else if c == '\\' {
        seq!['\\', '\\']
    } else if c == '\u{8}' {
        seq!['\\', 'b']
    } else if c == '\t' {
        seq!['\\', 't']
    } else if c == '\n' {
        seq!['\\', 'n']
    } else if c == '\u{c}' {
        seq!['\\', 'f']
    } else if c == '\r' {
        seq!['\\', 'r']
    } else if (c as u32) < 0x20 {
        seq!['\\', 'u', '0', '0', chiffre_hex((c as u32 / 16) as nat), chiffre_hex((c as u32 % 16) as nat)]
    } else {
        seq![c]
    }
}

/// Le contenu échappé d'une chaîne, caractère par caractère.
pub open spec fn echappe(s: Seq<char>) -> Seq<char>
    decreases s.len(),
{
    if s.len() == 0 {
        Seq::empty()
    } else {
        echappe_car(s[0]) + echappe(s.skip(1))
    }
}

/// Une chaîne écrite en JSON par serde_json : entre guillemets, son contenu
/// échappé.
pub open spec fn json_de_chaine(s: Seq<char>) -> Seq<char> {
    seq!['"'] + echappe(s) + seq!['"']
}

/// Un chiffre hexadécimal.
pub open spec fn est_hex(c: char) -> bool {
    ('0' <= c && c <= '9') || ('a' <= c && c <= 'f')
}

/// Le contenu d'une chaîne JSON bien formé : une suite de caractères qui ne
/// sont ni guillemet, ni antislash, ni caractère de contrôle, et de
/// séquences d'échappement complètes. Un tel contenu ne peut ni fermer la
/// chaîne, ni couper la ligne.
pub open spec fn contenu_json(t: Seq<char>) -> bool
    decreases t.len(),
{
    if t.len() == 0 {
        true
    } else if t[0] == '\\' {
        if t.len() >= 2 && (t[1] == '"' || t[1] == '\\' || t[1] == 'b' || t[1] == 'f' || t[1] == 'n'
            || t[1] == 'r' || t[1] == 't') {
            contenu_json(t.skip(2))
        } else if t.len() >= 6 && t[1] == 'u' && est_hex(t[2]) && est_hex(t[3]) && est_hex(t[4])
            && est_hex(t[5]) {
            contenu_json(t.skip(6))
        } else {
            false
        }
    } else {
        t[0] != '"' && (t[0] as u32) >= 0x20 && contenu_json(t.skip(1))
    }
}

/// Loi : le texte ne peut pas casser le script. Ce que serde_json écrit
/// d'une chaîne est un littéral JSON : un guillemet, un contenu bien formé,
/// un guillemet — le texte ne le ferme jamais avant la fin.
pub proof fn loi_le_texte_ne_ferme_pas_la_chaine(s: Seq<char>)
    ensures
        json_de_chaine(s)[0] == '"',
        json_de_chaine(s).last() == '"',
        json_de_chaine(s) =~= seq!['"'] + echappe(s) + seq!['"'],
        contenu_json(echappe(s)),
    decreases s.len(),
{
    if s.len() > 0 {
        loi_le_texte_ne_ferme_pas_la_chaine(s.skip(1));
        let p = echappe_car(s[0]);
        let r = echappe(s.skip(1));
        let t = p + r;
        assert(t.skip(p.len() as int) =~= r);
        if p.len() == 2 {
            assert(t.skip(2) =~= r);
        } else if p.len() == 6 {
            let c = s[0] as u32;
            assert(c / 16 < 2);
            assert(t.skip(6) =~= r);
        } else {
            assert(t.skip(1) =~= r);
        }
    }
}

#[verifier::external_body]
fn chaine_json(s: &str) -> (j: String)
    ensures
        j@ == json_de_chaine(s@),
{
    match serde_json::to_string(s) {
        Ok(j) => j,
        Err(_) => String::new(),
    }
}

/// L'appel JavaScript qui montre la notification : un objet dont les clés
/// viennent dans l'ordre où serde_json range celles d'un objet, `corps`
/// puis `titre`.
pub open spec fn appel_notification(titre_json: Seq<char>, corps_json: Seq<char>) -> Seq<char> {
    "window.afficherNotif({\"corps\":"@ + corps_json + ",\"titre\":"@ + titre_json + "})"@
}

/// L'appel JavaScript qui montre la notification, d'après le titre et le
/// corps déjà écrits en JSON.
pub fn appel_de_notification(titre_json: &str, corps_json: &str) -> (js: String)
    ensures
        js@ == appel_notification(titre_json@, corps_json@),
{
    let mut js = String::from_str("window.afficherNotif({\"corps\":");
    js.append(corps_json);
    js.append(",\"titre\":");
    js.append(titre_json);
    js.append("})");
    js
}

/// L'appel JavaScript qui montre une notification de ce titre et de ce
/// corps. Les deux sont écrits en JSON par serde_json : le texte ne peut pas
/// casser le script.
pub fn js_de_notification(titre: &str, corps: &str) -> (js: String)
    ensures
        js@ == appel_notification(json_de_chaine(titre@), json_de_chaine(corps@)),
{
    let t = chaine_json(titre);
    let c = chaine_json(corps);
    appel_de_notification(t.as_str(), c.as_str())
}

} // verus!
