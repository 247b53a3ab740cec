//! The game of Nim: a pile of sticks, each player takes one or two per
//! turn, and whoever takes the last stick wins.

use vstd::prelude::*;

use crate::game::Game;
use crate::game::GameMoveIterator;
use crate::game::GamePlayer;
use crate::game::GameResult;

verus! {

/// Enumerates the legal stick counts to take, from `1` up to the smaller
/// of two and the sticks left in the pile.
pub struct NimMoveIter {
    pub sticks: u32,
}

impl GameMoveIterator for NimMoveIter {
    type Game = Nim;

    type Move = u32;

    open spec fn remaining(&self, game: &Nim) -> nat {
        let cap: u32 = if game.sticks < Nim::MAX_STICKS_PER_TURN {
            game.sticks
        } else {
            Nim::MAX_STICKS_PER_TURN
        };
        if self.sticks >= cap {
            0
        } else {
            (cap - self.sticks) as nat
        }
    }

    open spec fn may_yield(game: &Nim, m: u32) -> bool {
        1 <= m && m <= Nim::MAX_STICKS_PER_TURN && m <= game.sticks
    }

    fn next(&mut self, nim: &Nim) -> (r: Option<u32>) {
        let cap: u32 = if nim.sticks < Nim::MAX_STICKS_PER_TURN {
            nim.sticks
        } else {
            Nim::MAX_STICKS_PER_TURN
        };
        if self.sticks >= cap {
            None
        } else {
            self.sticks = self.sticks + 1;
            Some(self.sticks)
        }
    }
}

/// A Nim position: the sticks left in the pile and whose turn it is. The
/// player who takes the last stick wins, so a position with an empty pile
/// is already won by the player who just moved.
#[derive(Clone, Copy, Debug, PartialEq, Eq, Hash, Structural)]
pub struct Nim {
    pub sticks: u32,
    pub player1: bool,
}

impl Nim {
    /// The most sticks one turn may take.
    pub const MAX_STICKS_PER_TURN: u32 = 2;

    /// A fresh game over `sticks` sticks, with player one to move.
    pub fn new(sticks: u32) -> (r: Nim)
        ensures
            r == (Nim { sticks, player1: true }),
    {
        Nim { sticks, player1: true }
    }

    /// How many sticks are left in the pile.
    pub fn sticks(&self) -> (r: u32)
        ensures
            r == self.sticks,
    {
        self.sticks
    }
}

impl Game for Nim {
    type Move = u32;

    type MoveGenerator = NimMoveIter;

    fn move_generator(&self) -> (r: NimMoveIter)
        ensures
            r == (NimMoveIter { sticks: 0 }),
    {
        NimMoveIter { sticks: 0 }
    }

    fn make_move(&mut self, sticks: u32)
        ensures
            final(self).sticks == old(self).sticks - sticks,
            final(self).player1 == !old(self).player1,
    {
        proof {
            assert(NimMoveIter::may_yield(old(self), sticks));
        }
        self.sticks = self.sticks - sticks;
        self.player1 = !self.player1;
    }

    fn current_player(&self) -> (r: GamePlayer)
        ensures
            r == (if self.player1 {
                GamePlayer::Player1
            } else {
                GamePlayer::Player2
            }),
    {
        if self.player1 {
            GamePlayer::Player1
        } else {
            GamePlayer::Player2
        }
    }

    fn finished(&self) -> (r: GameResult)
        ensures
            r == (if self.sticks == 0 {
                GameResult::Win(
                    if self.player1 {
                        GamePlayer::Player2
                    } else {
                        GamePlayer::Player1
                    },
                )
            } else {
                GameResult::NotFinished
            }),
    {
        if self.sticks == 0 {
            GameResult::Win(
                if self.player1 {
                    GamePlayer::Player2
                } else {
                    GamePlayer::Player1
                },
            )
        } else {
            GameResult::NotFinished
        }
    }

    fn with_move(&self, sticks: u32) -> (r: Nim)
        ensures
            r == (Nim { sticks: (self.sticks - sticks) as u32, player1: !self.player1 }),
    {
        let mut copy = *self;
        copy.make_move(sticks);
        copy
    }
}

} // verus!
