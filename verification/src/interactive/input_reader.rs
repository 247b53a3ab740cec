//! The contract of a source of player input.

use vstd::prelude::*;

use crate::error::GameInterfaceResult;

verus! {

/// A source of player input, e.g. lines typed at a terminal. The
/// concrete reader lives with the front-end; the players here only
/// consume what it hands them.
pub trait InputReader {
    type Output;

    fn next_input(&mut self) -> GameInterfaceResult<Self::Output>;
}

} // verus!
