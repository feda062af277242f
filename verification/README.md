# simple_chess

A chess opening trainer. The library under `src/` holds its logic, verified
with Verus: the game rules on top of `shakmaty`, the opening book (TSV rows
and move text replayed into moves), the choice of the opponent's move from
explorer statistics, the decisions of the setup screen, and the board as a
state machine (clicks, the computer's book moves, undo, hints, the status
line). `app/` is the Leptos front end around it: it draws the library's
state, runs timers, talks to the network and local storage, and makes the
random draws.

- `src/engine.rs` — the calls into `shakmaty`, each with its contract.
- `src/game.rs` — a position and its moves, outcome and pieces.
- `src/openings.rs` — the opening book.
- `src/explorer.rs` — explorer data, rating bands, popularity order,
  weighted draws, the lookup order of explorer answers.
- `src/setup.rs`, `src/session.rs` — the setup screen and the app phases.
- `src/board.rs` — the board state machine and its presentation.
- `src/text.rs`, `src/pieces.rs` — text and piece helpers.
