//! Ce que décide la fenêtre du menu du clic droit : quand l'abandonner, et
//! si un clic tombe hors d'elle. L'afficher et la placer est l'affaire du
//! programme.

use vstd::prelude::*;
use crate::duree::Duree;

verus! {

/// Le temps laissé à la page du menu pour dessiner, mesurer et demander sa
/// place, en millisecondes. Au-delà, le menu est abandonné.
pub const DELAI_PLACEMENT_MS: u64 = 1000;

/// Un menu ouvert à `ouvert_a` et toujours pas placé à `maintenant` est-il à
/// abandonner ? Un menu placé reste ouvert tant qu'on ne le ferme pas.
pub fn est_abandonne(ouvert_a: Duree, maintenant: Duree, place: bool) -> (r: bool)
    ensures
        r == (!place && (if maintenant@ >= ouvert_a@ {
            maintenant@ - ouvert_a@
        } else {
            0
        }) > DELAI_PLACEMENT_MS * 1_000_000),
{
    !place && maintenant.saturating_sub(ouvert_a).as_nanos() > DELAI_PLACEMENT_MS as u128
        * 1_000_000
}

/// Vrai si `p` tombe hors de `rect` `(x, y, largeur, hauteur)`.
pub fn hors_du_menu(p: (i32, i32), rect: (i32, i32, i32, i32)) -> (r: bool)
    requires
        i32::MIN <= rect.0 + rect.2 <= i32::MAX,
        i32::MIN <= rect.1 + rect.3 <= i32::MAX,
    ensures
        r == (p.0 < rect.0 || p.0 >= rect.0 + rect.2 || p.1 < rect.1 || p.1 >= rect.1 + rect.3),
{
    let (x, y, w, h) = rect;
    p.0 < x || p.0 >= x + w || p.1 < y || p.1 >= y + h
}

/// Une coordonnée du coin de la fenêtre du menu, sur un axe : décalée de
/// la marge de l'ombre pour que le menu parte du curseur ; de l'autre côté
/// du curseur s'il déborde ; et en dernier recours serrée contre le bord.
pub open spec fn coin_sur_l_axe(curseur: int, marge: int, taille: int, debut: int, fin: int) -> int {
    let pres = curseur - marge;
    let replie = if pres + taille > fin {
        curseur - taille + marge
    } else {
        pres
    };
    let serre = if replie < fin - taille {
        replie
    } else {
        fin - taille
    };
    if serre > debut {
        serre
    } else {
        debut
    }
}

/// Les valeurs en jeu sur un axe restent des `i32`.
pub open spec fn axe_sans_debordement(curseur: i32, marge: i32, taille: i32, fin: i32) -> bool {
    &&& i32::MIN <= curseur - marge <= i32::MAX
    &&& i32::MIN <= curseur - marge + taille <= i32::MAX
    &&& i32::MIN <= curseur - taille <= i32::MAX
    &&& i32::MIN <= curseur - taille + marge <= i32::MAX
    &&& i32::MIN <= fin - taille <= i32::MAX
}

/// Le coin sur un axe, calculé en `i32` qui rebouclent hors de leurs bornes.
pub open spec fn coin_reboucle(curseur: i32, marge: i32, taille: i32, debut: i32, fin: i32) -> i32 {
    let c0 = vstd::wrapping::i32_specs::wrapping_sub(curseur, marge);
    let c = if vstd::wrapping::i32_specs::wrapping_add(c0, taille) > fin {
        vstd::wrapping::i32_specs::wrapping_add(vstd::wrapping::i32_specs::wrapping_sub(curseur, taille), marge)
    } else {
        c0
    };
    let limite = vstd::wrapping::i32_specs::wrapping_sub(fin, taille);
    let serre = if c < limite {
        c
    } else {
        limite
    };
    if serre > debut {
        serre
    } else {
        debut
    }
}

fn coin(curseur: i32, marge: i32, taille: i32, debut: i32, fin: i32) -> (r: i32)
    ensures
        r == coin_reboucle(curseur, marge, taille, debut, fin),
        axe_sans_debordement(curseur, marge, taille, fin) ==> r == coin_sur_l_axe(
            curseur as int,
            marge as int,
            taille as int,
            debut as int,
            fin as int,
        ),
{
    let mut c = curseur.wrapping_sub(marge);
    if c.wrapping_add(taille) > fin {
        c = curseur.wrapping_sub(taille).wrapping_add(marge);
    }
    let limite = fin.wrapping_sub(taille);
    let serre = if c < limite {
        c
    } else {
        limite
    };
    if serre > debut {
        serre
    } else {
        debut
    }
}

/// Où poser la fenêtre du menu, de `taille` (largeur, hauteur, marge de
/// l'ombre comprise, en pixels physiques), pour un clic au `curseur`, dans
/// un écran de `bornes` (gauche, haut, droite, bas). Au milieu de l'écran,
/// le coin du menu est sous le curseur ; près d'un bord, il s'ouvre de
/// l'autre côté. Le calcul se fait sur des `i32`, qui rebouclent hors de
/// leurs bornes ; dans leurs bornes, c'est `coin_sur_l_axe`.
pub fn placer_dans_l_ecran(curseur: (i32, i32), marge: i32, taille: (i32, i32), bornes: (
    i32,
    i32,
    i32,
    i32,
)) -> (r: (i32, i32))
    ensures
        r.0 == coin_reboucle(curseur.0, marge, taille.0, bornes.0, bornes.2),
        r.1 == coin_reboucle(curseur.1, marge, taille.1, bornes.1, bornes.3),
        axe_sans_debordement(curseur.0, marge, taille.0, bornes.2) ==> r.0 == coin_sur_l_axe(
            curseur.0 as int,
            marge as int,
            taille.0 as int,
            bornes.0 as int,
            bornes.2 as int,
        ),
        axe_sans_debordement(curseur.1, marge, taille.1, bornes.3) ==> r.1 == coin_sur_l_axe(
            curseur.1 as int,
            marge as int,
            taille.1 as int,
            bornes.1 as int,
            bornes.3 as int,
        ),
{
    (
        coin(curseur.0, marge, taille.0, bornes.0, bornes.2),
        coin(curseur.1, marge, taille.1, bornes.1, bornes.3),
    )
}

/// Loi : un menu qui tient dans l'écran y reste entièrement, où que soit
/// le curseur ; et quand il tient sans se replier, son coin est sous le
/// curseur, décalé de la marge.
pub proof fn loi_le_menu_reste_dans_l_ecran(curseur: int, marge: int, taille: int, debut: int, fin: int)
    requires
        0 <= taille <= fin - debut,
    ensures
        debut <= coin_sur_l_axe(curseur, marge, taille, debut, fin),
        coin_sur_l_axe(curseur, marge, taille, debut, fin) + taille <= fin,
        debut <= curseur - marge && curseur - marge + taille <= fin ==> coin_sur_l_axe(
            curseur,
            marge,
            taille,
            debut,
            fin,
        ) == curseur - marge,
{
}

} // verus!
