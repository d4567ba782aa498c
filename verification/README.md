# shimeji-desktop

Des personnages en pixel-art qui vivent sur le bureau Windows : ils
marchent, s'assoient, dorment, grimpent aux murs et se suspendent au
plafond.

## Organisation

- `src/` — la bibliothèque `shimeji_desktop`, vérifiée par Verus : le
  roster des personnages, l'horloge et l'aléatoire injectés, les menus (du
  personnage, du tray, natif), la charge de l'overlay et son JavaScript, le
  schéma d'images, la couverture partielle des manifestes et la pose jouée,
  le départ d'un acteur, les décisions de la mise à jour, les signaux du
  système, les décisions de la boucle des 60 Hz (lecture des signaux, menu
  au clic droit, fenêtres d'écran, envoi des charges) et le résumé du mode
  simulation. Chaque fonction
  publique porte un contrat ; les propriétés qui relient plusieurs appels
  sont des fonctions de preuve `loi_*`.
- `tests/` — les tests de la bibliothèque.
- `app/` — le programme : la boucle qui accomplit les actions décidées par
  la bibliothèque, Windows, Tauri, les fichiers et le réseau, et les
  calculs en virgule flottante (géométrie, physique, poids des envies).
