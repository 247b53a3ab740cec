//! The contract a participant in an interactive game implements.

use vstd::prelude::*;

use crate::error::GameInterfaceResult;
use crate::game::Game;

verus! {

/// Value returned from `make_move` to tell the game engine whether to
/// accept a move from a player, or to keep prompting the player.
/// `Continue` may be used if a move requires multiple selections from
/// the user.
pub enum MakeMoveControl<M> {
    /// The move that the player chose.
    Done(M),
    /// Continue prompting for a move. The internal state of the player
    /// should have updated to ask for different information.
    Continue,
}

/// A participant in an interactive game: something that can be asked for
/// its next move in a given position.
pub trait Player {
    type Game: Game;

    fn display_name(&self) -> String;

    /// If `Some`, flavor text to print to the screen when prompting for
    /// the next move.
    fn prompt_move_text(&self, game: &Self::Game) -> Option<String> {
        None
    }

    /// Asks the player for its next move in `game`, or for an error to
    /// report, or for another round of prompting.
    fn make_move(&mut self, game: &Self::Game) -> GameInterfaceResult<
        MakeMoveControl<<Self::Game as Game>::Move>,
    >;
}

} // verus!
