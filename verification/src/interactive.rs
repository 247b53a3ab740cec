//! Player-facing plumbing around a running game: the contract a player of
//! an interactive game implements, and players built from a solver or
//! from parsed human input.

pub mod bot_player;
pub mod human_player;
pub mod human_term_player;
pub mod input_reader;
pub mod player;
