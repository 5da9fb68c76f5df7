# life_war

Life War is a two-player game on the rules of Conway's Game of Life. On an odd
square board (5 to 31 points a side) Black and White first lay out stones in
their own half; two passes in a row start the action phase, in which every
placed stone is followed by one generation of evolution. A color left without
stones has lost.

- `src/` is the verified library (Verus):
  - `game.rs` — the game's values and `Game`, whose `apply` performs one turn;
  - `rules.rs` — the rules as mathematical functions (`step`, `evolve_board`, …)
    that the contracts of `game.rs` are stated over;
  - `protocol.rs` — the values shown to and received from a client;
  - `session.rs` — one shared game with revisions and undo;
  - `text.rs` — player-facing messages; `assets.rs` — content types;
  - `laws.rs` — properties across operations, proved;
  - `symmetry.rs` — exchanging colors, mirroring and transposing commute with
    evolution.
- `app/` is the HTTP server (axum, tokio) around the library.
- `tests/` run the library on concrete games.
