//! A player that asks a solver for its moves.

use vstd::prelude::*;

use crate::error::GameInterfaceError;
use crate::error::GameInterfaceResult;
use crate::game::Game;
use crate::game::GameMoveIterator;
use crate::interactive::player::MakeMoveControl;
use crate::interactive::player::Player;
use crate::solver::Solver;

verus! {

/// A player that plays whatever move its solver reports as best, always
/// searching to the same fixed depth.
pub struct BotPlayer<S> {
    pub name: String,
    pub solver: S,
    pub depth: u32,
}

impl<S> BotPlayer<S> {
    pub fn new(name: String, solver: S, depth: u32) -> (r: BotPlayer<S>)
        ensures
            r.name@ == name@,
            r.depth == depth,
    {
        BotPlayer { name, solver, depth }
    }
}

impl<S: Solver> Player for BotPlayer<S> {
    type Game = S::Game;

    fn display_name(&self) -> (r: String)
        ensures
            r@ == self.name@,
    {
        self.name.clone()
    }

    /// The solver's best move for `game`; an internal error if the solver
    /// found none. Any move handed back is legal in `game`.
    fn make_move(&mut self, game: &S::Game) -> (r: GameInterfaceResult<
        MakeMoveControl<<S::Game as Game>::Move>,
    >)
        ensures
            r matches Ok(MakeMoveControl::Done(m))
                ==> <S::Game as Game>::MoveGenerator::may_yield(game, m),
    {
        let (_, m) = self.solver.best_move(game, self.depth);
        match m {
            Some(m) => Ok(MakeMoveControl::Done(m)),
            None => Err(
                GameInterfaceError::InternalError(
                    "the solver found no move for this game".to_owned(),
                ),
            ),
        }
    }
}

} // verus!
