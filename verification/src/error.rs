//! Errors reported at the boundary between a game front-end and the
//! players feeding it moves.

use vstd::prelude::*;

verus! {

/// Why prompting for or applying a move failed.
#[derive(Debug)]
pub enum GameInterfaceError {
    /// The user quit.
    Quit,
    /// The move text could not be understood, or named an illegal move.
    MalformedMove(String),
    /// Reading input or writing output failed.
    IoError(String),
    /// A component broke its own contract, e.g. a solver found no move
    /// for an unfinished game.
    InternalError(String),
}

pub type GameInterfaceResult<T = ()> = Result<T, GameInterfaceError>;

} // verus!
