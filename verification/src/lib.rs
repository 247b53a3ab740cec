//! Building blocks for turn-based, perfect-information, two-player game
//! search engines: a compact score value that records how far into the
//! future a win, loss, or tie has been proven, together with the algebra
//! for combining and shifting such partial results, and the `Game` and
//! `Solver` contracts that tie a concrete game and a search engine to it.

pub mod complete_solver;
pub mod determined_score;
mod error;
mod game;
pub mod human_players;
pub mod interactive;
mod score;
mod solver;
pub mod test_games;
pub mod test_util;

pub use error::GameInterfaceError;
pub use error::GameInterfaceResult;
pub use game::Game;
pub use game::GameIterator;
pub use game::GameMoveIterator;
pub use game::GamePlayer;
pub use game::GameResult;
pub use score::MAX_TIE_DEPTH;
pub use score::MAX_WIN_DEPTH;
pub use score::Score;
pub use score::ScoreValue;
pub use solver::MoveLoss;
pub use solver::Solver;
