//! Bibliothèque vérifiée de shimeji-desktop : la logique pure du programme
//! (horloge, aléatoire, roster, menus, chronologie), prouvée par Verus.

use vstd::prelude::*;

pub mod duree;
pub mod texte;
pub mod rng;
pub mod roster;
pub mod clock;
pub mod charge;
pub mod maj;
pub mod menu_fenetre;
pub mod notif_maison;
pub mod ne_pas_deranger;
pub mod render;
pub mod tray;
pub mod geom;
pub mod character;
pub mod behavior;
pub mod actions;
pub mod menu_perso;
pub mod overlay;
pub mod probe;
pub mod signals;
pub mod sim;
pub mod frames;
pub mod commandes;
pub mod menu_natif;
pub mod depart;
pub mod config;
pub mod boucle;

verus! {

} // verus!
