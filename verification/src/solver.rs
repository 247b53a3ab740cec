//! The contract a search engine implements, plus helpers derived purely
//! from the `Score` algebra.

use vstd::prelude::*;

use crate::game::Game;
use crate::game::GameMoveIterator;
use crate::score::MAX_WIN_DEPTH;
use crate::score::Score;

verus! {

/// How much worse one particular move is than the best move available.
#[derive(Clone, Copy, Debug, PartialEq, Eq, Structural)]
pub enum MoveLoss {
    Equivalent,
    Worse,
}

/// The contract a search engine implements: given a game state and a
/// depth budget, produce a `Score` and, unless the game is already over,
/// a best move. How "depth" maps to plies is the solver's own business;
/// it only has to be consistent with the `Score` depth fields it returns.
pub trait Solver {
    type Game: Game;

    /// Searches `game` with a budget of `depth` and returns the knowledge
    /// gained together with a best move, or no move if the game is
    /// already finished. The score is well formed, is not the in-progress
    /// marker, and leaves room for one perspective shift toward the
    /// parent; any returned move is legal in `game`.
    fn best_move(&mut self, game: &Self::Game, depth: u32) -> (r: (
        Score,
        Option<<Self::Game as Game>::Move>,
    ))
        ensures
            r.0.wf(),
            !r.0.spec_is_ancestor(),
            r.0.turn_count_win < MAX_WIN_DEPTH,
            r.1 matches Some(m) ==> <Self::Game as Game>::MoveGenerator::may_yield(game, m),
    ;

    /// How much is lost by playing `m` instead of the best move: searches
    /// the position before and after the move and compares the two
    /// scores, seen from the same side, for contradiction. Derived purely
    /// from `best_move` and the `Score` operators; concrete solvers are
    /// not meant to reimplement it.
    fn move_loss(
        &mut self,
        m: <Self::Game as Game>::Move,
        game: &Self::Game,
        depth: u32,
    ) -> (r: MoveLoss)
        requires
            depth >= 1,
            <Self::Game as Game>::MoveGenerator::may_yield(game, m),
    {
        let (cur_score, _) = self.best_move(game, depth);
        let (move_score, _) = self.best_move(&game.with_move(m), depth - 1);
        let move_score = move_score.backstep();

        if cur_score.compatible(move_score) {
            MoveLoss::Equivalent
        } else {
            MoveLoss::Worse
        }
    }

    /// Plays the game forward by repeatedly asking `best_move` for the
    /// next move, recording each position reached and the move that
    /// reached it, until the game finishes, no move is returned, or
    /// `max_moves` moves have been played. Derived purely from
    /// `best_move`; concrete solvers are not meant to reimplement it.
    fn playout(&mut self, game: &Self::Game, depth: u32, max_moves: usize) -> (r: Vec<
        (Self::Game, <Self::Game as Game>::Move),
    >)
        ensures
            r@.len() <= max_moves,
    {
        let mut result: Vec<(Self::Game, <Self::Game as Game>::Move)> = Vec::new();
        if max_moves == 0 {
            return result;
        }
        let (_, first) = self.best_move(game, depth);
        let mut current: Self::Game;
        match first {
            None => { return result },
            Some(m) => {
                current = game.with_move(m);
                result.push((current.clone(), m));
            },
        }
        while result.len() < max_moves
            invariant
                result@.len() <= max_moves,
            decreases max_moves - result.len(),
        {
            if current.finished().is_finished() {
                break;
            }
            let (_, next) = self.best_move(&current, depth);
            match next {
                None => { break },
                Some(m) => {
                    current = current.with_move(m);
                    result.push((current.clone(), m));
                },
            }
        }
        result
    }
}

} // verus!
