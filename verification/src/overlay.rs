//! La charge utile de l'overlay : les sprites qu'un écran doit afficher, et
//! l'appel JavaScript qui les porte jusqu'au webview.
//!
//! Ce module ne connaît ni fenêtre ni `eval` : il transforme de la donnée
//! en donnée.

use vstd::prelude::*;
use vstd::string::StringExecFns;
use crate::texte::{decimal, decimal_signe, ecrire_decimal, ecrire_entier, pousser_car};

verus! {

/// Un sprite tel que la boucle le calcule : en pixels du bureau virtuel,
/// coin haut-gauche.
///
/// `id` est le compteur monotone des acteurs, jamais leur index : un index
/// se réutilise quand un acteur part.
#[derive(Debug, Clone, Copy, PartialEq, Eq)]
pub struct SpriteRendu {
    pub id: u32,
    pub x: i32,
    pub y: i32,
    pub w: u32,
    pub h: u32,
    pub image: u32,
    pub flip: bool,
}

/// Le même sprite, en pixels relatifs à la fenêtre d'un écran. Un type
/// distinct : les deux repères ne sont pas interchangeables.
#[derive(Debug, Clone, Copy, PartialEq, Eq)]
pub struct SpriteRelatif {
    pub id: u32,
    pub x: i32,
    pub y: i32,
    pub w: u32,
    pub h: u32,
    pub image: u32,
    pub flip: bool,
}

/// Ce qu'un écran doit afficher.
#[derive(Debug, Clone, PartialEq, Eq)]
pub struct ChargeEcran {
    /// L'identité de l'écran, stable dans le temps.
    pub ecran: u64,
    pub sprites: Vec<SpriteRelatif>,
}

/// Un sprite en JavaScript : `[id,x,y,w,h,image,flip]`, `flip` valant `0`
/// ou `1` — l'ordre que lit le webview.
pub open spec fn js_sprite(s: SpriteRelatif) -> Seq<char> {
    seq!['['] + decimal(s.id as nat) + seq![','] + decimal_signe(s.x as int) + seq![','] + decimal_signe(
        s.y as int,
    ) + seq![','] + decimal(s.w as nat) + seq![','] + decimal(s.h as nat) + seq![','] + decimal(
        s.image as nat,
    ) + seq![','] + (if s.flip {
        seq!['1']
    } else {
        seq!['0']
    }) + seq![']']
}

/// Les sprites en JavaScript, séparés par une virgule.
pub open spec fn js_sprites(s: Seq<SpriteRelatif>) -> Seq<char>
    decreases s.len(),
{
    if s.len() == 0 {
        Seq::empty()
    } else if s.len() == 1 {
        js_sprite(s[0])
    } else {
        js_sprites(s.drop_last()) + seq![','] + js_sprite(s.last())
    }
}

/// L'appel JavaScript qui porte toute une charge.
pub open spec fn js_de_charge(sprites: Seq<SpriteRelatif>) -> Seq<char> {
    "window.poserTous(["@ + js_sprites(sprites) + "])"@
}

fn ecrire_sprite(js: &mut String, s: &SpriteRelatif)
    ensures
        final(js)@ == old(js)@ + js_sprite(*s),
{
    let ghost debut = js@;
    pousser_car(js, '[');
    ecrire_decimal(js, s.id as u64);
    pousser_car(js, ',');
    ecrire_entier(js, s.x as i64);
    pousser_car(js, ',');
    ecrire_entier(js, s.y as i64);
    pousser_car(js, ',');
    ecrire_decimal(js, s.w as u64);
    pousser_car(js, ',');
    ecrire_decimal(js, s.h as u64);
    pousser_car(js, ',');
    ecrire_decimal(js, s.image as u64);
    pousser_car(js, ',');
    if s.flip {
        pousser_car(js, '1');
    } else {
        pousser_car(js, '0');
    }
    pousser_car(js, ']');
    assert(js@ =~= debut + js_sprite(*s));
}

/// L'appel JavaScript qui porte toute la charge d'un écran :
/// `window.poserTous([[id,x,y,w,h,image,flip],…])`.
///
/// Il n'y entre que des entiers produits par le programme : rien n'est à
/// échapper.
pub fn js_de(charge: &ChargeEcran) -> (js: String)
    ensures
        js@ == js_de_charge(charge.sprites@),
{
    let mut js = String::from_str("window.poserTous([");
    let ghost debut = js@;
    let mut i: usize = 0;
    while i < charge.sprites.len()
        invariant
            i <= charge.sprites@.len(),
            debut == "window.poserTous(["@,
            js@ == debut + js_sprites(charge.sprites@.take(i as int)),
        decreases charge.sprites@.len() - i,
    {
        let ghost t = charge.sprites@.take(i + 1);
        assert(t.drop_last() =~= charge.sprites@.take(i as int));
        assert(t.last() == charge.sprites@[i as int]);
        let ghost avant = js@;
        if i > 0 {
            pousser_car(&mut js, ',');
        }
        ecrire_sprite(&mut js, &charge.sprites[i]);
        if i == 0 {
            assert(t =~= seq![charge.sprites@[0]]);
            assert(js@ =~= debut + js_sprites(t));
        } else {
            assert(js@ =~= debut + js_sprites(t));
        }
        i = i + 1;
    }
    assert(charge.sprites@.take(i as int) =~= charge.sprites@);
    js.append("])");
    js
}

/// Une paire de la table des packs en JavaScript : `"id":"nom"`.
pub open spec fn js_paire(id: u32, nom: Seq<char>) -> Seq<char> {
    seq!['"'] + decimal(id as nat) + "\":\""@ + nom + seq!['"']
}

/// Les paires, séparées par une virgule.
pub open spec fn js_paires(p: Seq<(u32, String)>) -> Seq<char>
    decreases p.len(),
{
    if p.len() == 0 {
        Seq::empty()
    } else if p.len() == 1 {
        js_paire(p[0].0, p[0].1@)
    } else {
        js_paires(p.drop_last()) + seq![','] + js_paire(p.last().0, p.last().1@)
    }
}

/// La table `id -> pack` des acteurs en littéral JavaScript,
/// `{"3":"blob","4":"chat"}`, pour déclarer au webview quel pack dessine
/// chaque acteur. Les clés sont des chaînes : un objet JavaScript n'a pas
/// de clés numériques.
///
/// Les noms ne sont pas échappés : ce sont des noms de dossiers, validés à
/// l'installation.
pub fn table_packs_js(acteurs: &[(u32, String)]) -> (js: String)
    ensures
        js@ == seq!['{'] + js_paires(acteurs@) + seq!['}'],
{
    let mut js = String::new();
    pousser_car(&mut js, '{');
    let ghost debut = js@;
    let mut i: usize = 0;
    while i < acteurs.len()
        invariant
            i <= acteurs@.len(),
            debut == seq!['{'],
            js@ == debut + js_paires(acteurs@.take(i as int)),
        decreases acteurs@.len() - i,
    {
        let ghost t = acteurs@.take(i + 1);
        assert(t.drop_last() =~= acteurs@.take(i as int));
        assert(t.last() == acteurs@[i as int]);
        let ghost avant = js@;
        if i > 0 {
            pousser_car(&mut js, ',');
        }
        let ghost apres_virgule = js@;
        pousser_car(&mut js, '"');
        ecrire_decimal(&mut js, acteurs[i].0 as u64);
        js.append("\":\"");
        js.append(acteurs[i].1.as_str());
        pousser_car(&mut js, '"');
        assert(js@ =~= apres_virgule + js_paire(acteurs@[i as int].0, acteurs@[i as int].1@));
        if i == 0 {
            assert(t =~= seq![acteurs@[0]]);
        }
        assert(js@ =~= debut + js_paires(t));
        i = i + 1;
    }
    assert(acteurs@.take(i as int) =~= acteurs@);
    pousser_car(&mut js, '}');
    js
}

} // verus!
