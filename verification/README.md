# wumpus

Hunt the Wumpus (Creative Computing, 1979) as a Verus library: a cave of
twenty rooms on a dodecahedron, a wumpus, two super bats, two bottomless pits,
five crooked arrows, and the question-and-answer dialogue around them.

- `src/game/` — the cave (`constants.rs`), the cast and its placement
  (`actor.rs`), the game as a state machine driven by `GameAction`s
  (`game.rs`), and the laws every game obeys (`laws.rs`).
- `src/textgame/` — the text dialogue: reading answers and numbers
  (`text.rs`), the instructions (`instructions.rs`), and `TextGame`, whose
  consistency is a type invariant (`textgame.rs`).
- `src/random.rs` — the `Random` trait, with `OsRandom` on the `rand` crate
  and `WasmRandom` on a host function.
- `src/actor.rs`, `src/console_game.rs`, `src/ioadapter.rs` — the actors,
  texts and input/output trait of the console version.
- `app/` — the console program; `app/wasm.rs` holds the web page's
  `wasm_bindgen` front end, which belongs in a build for the wasm target.

Randomness is never guessed at. Each source of randomness says which ranges
it serves and which numbers and orders it may give; where the dice decide, a
contract says what follows from every draw the source may give, and a step
that takes the drawn values (`cast_in`, `Game::move_to`, `Game::wumpus_step`)
says exactly what comes of them.
