//! The two phases of the app, setup and game, and the choice of a new
//! variation when the user asks for a new game.

use vstd::prelude::*;

verus! {

/// Which screen is shown.
#[derive(Clone, Copy, Debug, PartialEq, Eq, Structural)]
pub enum AppPhase {
    Setup,
    Game,
}

/// What a draw means when a new variation is picked from a pack of `n`
/// lines whose current one is `current`.
#[derive(Clone, Copy, Debug, PartialEq, Eq, Structural)]
pub enum NewGamePick {
    /// The pack has no other line: the game stays as it is.
    Keep,
    /// The draw hit the current line: draw again.
    DrawAgain,
    /// Play the line with this index.
    Take(usize),
}

/// What a random draw `roll` means for a new game: a pack of one line (or
/// none) keeps its game, a draw of the current line is drawn again, any
/// other draw is taken.
pub open spec fn new_game_pick_spec(n: usize, current: usize, roll: usize) -> NewGamePick {
    if n <= 1 {
        NewGamePick::Keep
    } else if roll == current {
        NewGamePick::DrawAgain
    } else {
        NewGamePick::Take(roll)
    }
}

/// Decides what a random draw `roll` (below `n`) means for a new game (see
/// [`new_game_pick_spec`]).
pub fn new_game_pick(n: usize, current: usize, roll: usize) -> (res: NewGamePick)
    ensures
        res == new_game_pick_spec(n, current, roll),
{
    if n <= 1 {
        NewGamePick::Keep
    } else if roll == current {
        NewGamePick::DrawAgain
    } else {
        NewGamePick::Take(roll)
    }
}

/// What a draw does on New Game: a pack of at most one line keeps its
/// game; in a larger pack a draw of any line other than the current one
/// (before or after it) is taken, and only a draw of the current line is
/// drawn again.
pub proof fn new_game_takes_every_other_line(n: usize, current: usize, roll: usize)
    ensures
        n <= 1 ==> new_game_pick_spec(n, current, roll) == NewGamePick::Keep,
        n > 1 && roll != current ==> new_game_pick_spec(n, current, roll) == NewGamePick::Take(roll),
        n > 1 && roll == current ==> new_game_pick_spec(n, current, roll) == NewGamePick::DrawAgain,
{
}

/// A new game never replays the current line, and a draw from the pack
/// stays in the pack.
pub proof fn new_game_changes_line(n: usize, current: usize, roll: usize)
    requires
        roll < n,
    ensures
        new_game_pick_spec(n, current, roll) matches NewGamePick::Take(i) ==> i != current && i < n,
{
}

} // verus!
