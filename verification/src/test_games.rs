//! Small concrete games used to exercise the `Game` contract.

pub mod nim;

pub use nim::Nim;
pub use nim::NimMoveIter;
