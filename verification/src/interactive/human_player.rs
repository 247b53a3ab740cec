//! The game-specific half of a human player: prompt text and move
//! parsing, working purely on the text a front-end has already read.

use vstd::prelude::*;

use crate::error::GameInterfaceResult;
use crate::game::Game;

verus! {

/// What a human player of one concrete game knows: how to prompt for a
/// move and how to parse the entered text into a move.
pub trait HumanPlayer {
    type Game: Game;

    /// The text to be printed to the terminal when it's a player's turn
    /// to make a move.
    fn prompt_move_text(&self, game: &Self::Game) -> String;

    /// Parses a player's move from one line of input, returning the
    /// parsed move, or an error if parsing failed.
    fn parse_move(&self, move_text: &str, game: &Self::Game) -> GameInterfaceResult<
        <Self::Game as Game>::Move,
    >;
}

} // verus!
