# roguelike_map

The map logic of a small grid roguelike, verified with Verus.

- `src/position.rs`: signed cells, their sum and difference, the walking
  distance between two cells and the eight cells around a cell, with the
  laws they obey.
- `src/map.rs`: the level map (which entity stands on which cell, where each
  entity stands, and the player), specified over a mathematical view.
- `src/grid.rs`: a level on unsigned cells: the frame of walls around it, the
  cell the movement keys lead to, and the move of the player that stops at
  occupied cells.
- `src/input.rs`: the movement keys and the screen direction they give.
- `tests/`: tests run against the compiled library.
- `app/`: the game itself on top of the Bevy engine: windows, drawing,
  spawning entities, and the floating-point glide of entities across the
  screen.
