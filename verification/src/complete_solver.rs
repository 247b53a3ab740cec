//! The marker contract for solvers that find true optimal moves.

use vstd::prelude::*;

use crate::determined_score::DeterminedScore;
use crate::game::Game;
use crate::game::GameMoveIterator;
use crate::solver::Solver;

verus! {

/// Complete solvers find the true optimal moves (e.g. highest-valued
/// `Score`), which differs from "optimal" solvers (e.g. "never loses") in
/// that the minimum path to victory is required.
///
/// Only implement this for a solver known to be complete: its scores are
/// expected to be fully determined, so they can be resolved into a
/// `DeterminedScore` report.
pub trait CompleteSolver: Solver {
    /// The best move together with its fully-resolved score report, or
    /// `None` if the score the solver returned was not fully determined.
    fn best_move_determined(&mut self, game: &Self::Game, depth: u32) -> (r: Option<
        (DeterminedScore, Option<<Self::Game as Game>::Move>),
    >)
        ensures
            r matches Some(p) ==> (p.1 matches Some(m)
                ==> <Self::Game as Game>::MoveGenerator::may_yield(game, m)),
    {
        let (score, m) = self.best_move(game, depth);
        match DeterminedScore::from_score(score) {
            Some(determined) => Some((determined, m)),
            None => None,
        }
    }
}

} // verus!
