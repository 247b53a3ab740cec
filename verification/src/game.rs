//! The state-transition contract a concrete two-player game implements:
//! enumerating legal moves, applying a move, and reporting whose turn it
//! is and whether the game is over.

use vstd::prelude::*;

verus! {

/// Arbitrary labels to assign to each of the two players of a game.
/// `Player1` does not need to be the first player.
#[derive(Clone, Copy, Debug, PartialEq, Eq, Structural)]
pub enum GamePlayer {
    Player1,
    Player2,
}

impl GamePlayer {
    /// The other player.
    pub open spec fn spec_opposite(self) -> GamePlayer {
        match self {
            GamePlayer::Player1 => GamePlayer::Player2,
            GamePlayer::Player2 => GamePlayer::Player1,
        }
    }

    pub fn is_p1(&self) -> (r: bool)
        ensures
            r == (*self == GamePlayer::Player1),
    {
        match self {
            GamePlayer::Player1 => true,
            GamePlayer::Player2 => false,
        }
    }

    pub fn is_p2(&self) -> (r: bool)
        ensures
            r == (*self == GamePlayer::Player2),
    {
        match self {
            GamePlayer::Player1 => false,
            GamePlayer::Player2 => true,
        }
    }

    pub fn opposite(&self) -> (r: GamePlayer)
        ensures
            r == self.spec_opposite(),
    {
        match self {
            GamePlayer::Player1 => GamePlayer::Player2,
            GamePlayer::Player2 => GamePlayer::Player1,
        }
    }
}

/// Whether a game is over, and if so how it ended.
#[derive(Clone, Copy, Debug, PartialEq, Eq, Structural)]
pub enum GameResult {
    NotFinished,
    Win(GamePlayer),
    Tie,
}

impl GameResult {
    pub fn is_finished(&self) -> (r: bool)
        ensures
            r == (*self != GameResult::NotFinished),
    {
        match self {
            GameResult::NotFinished => false,
            GameResult::Win(_) => true,
            GameResult::Tie => true,
        }
    }
}

/// A restartable, finite generator of the legal moves of one game
/// position. It borrows the game on each step and never mutates it, so
/// every generator obtained from the same position yields an independent
/// sequence.
pub trait GameMoveIterator: Sized {
    type Game;

    type Move: Copy;

    /// An upper bound on how many more moves this generator can yield for
    /// `game`; it shrinks with every move produced, which is what makes
    /// the move sequence provably finite.
    spec fn remaining(&self, game: &Self::Game) -> nat;

    /// Which moves this generator can ever hand out for `game`, regardless
    /// of how far the enumeration has advanced. For a game's own generator
    /// these are exactly the legal moves.
    spec fn may_yield(game: &Self::Game, m: Self::Move) -> bool;

    /// Yields the next legal move of `game`, or `None` once the sequence
    /// is exhausted.
    fn next(&mut self, game: &Self::Game) -> (r: Option<Self::Move>)
        ensures
            r matches Some(m) ==> Self::may_yield(game, m) && final(self).remaining(game)
                < old(self).remaining(game),
    ;

    /// Packages this generator with the game it walks, so a caller can
    /// step through the moves without threading the game through each
    /// call.
    fn to_iter(self, game: &Self::Game) -> (r: GameIterator<'_, Self, Self::Game>)
        ensures
            r.game == game,
    {
        GameIterator { game, game_iter: self }
    }
}

/// A move generator paired with the position it enumerates.
pub struct GameIterator<'a, I, G> {
    pub game: &'a G,
    pub game_iter: I,
}

impl<'a, I, G> GameIterator<'a, I, G> where I: GameMoveIterator<Game = G> {
    /// Yields the next legal move of the underlying position.
    pub fn next(&mut self) -> (r: Option<I::Move>)
        ensures
            final(self).game == old(self).game,
            r matches Some(m) ==> I::may_yield(old(self).game, m)
                && final(self).game_iter.remaining(old(self).game)
                < old(self).game_iter.remaining(old(self).game),
    {
        self.game_iter.next(self.game)
    }
}

/// The contract a concrete game implements to be searchable: its full
/// position state, cheap to copy so that search algorithms can explore
/// branches independently, with legal-move enumeration and pure queries
/// for the side to move and the outcome.
pub trait Game: Sized + Clone {
    type Move: Copy + PartialEq;

    type MoveGenerator: GameMoveIterator<Game = Self, Move = Self::Move>;

    /// A fresh generator over the legal moves of this position.
    fn move_generator(&self) -> Self::MoveGenerator;

    /// All legal moves of this position, in generation order.
    fn each_move(&self) -> (moves: Vec<Self::Move>)
        ensures
            forall|i: int| 0 <= i < moves@.len() ==> Self::MoveGenerator::may_yield(self, #[trigger] moves@[i]),
    {
        let mut game_iter = self.move_generator();
        let mut moves: Vec<Self::Move> = Vec::new();
        loop
            invariant
                forall|i: int| 0 <= i < moves@.len() ==> Self::MoveGenerator::may_yield(
                    self,
                    #[trigger] moves@[i],
                ),
            decreases game_iter.remaining(self),
        {
            match game_iter.next(self) {
                Some(m) => { moves.push(m) },
                None => { break },
            }
        }
        moves
    }

    /// Applies a legal move to this position in place.
    fn make_move(&mut self, m: Self::Move)
        requires
            Self::MoveGenerator::may_yield(old(self), m),
    ;

    /// The player who makes the next move.
    fn current_player(&self) -> GamePlayer;

    /// Whether the game is over, and who won it if someone did.
    fn finished(&self) -> GameResult;

    /// The position reached by applying `m` to a copy of this position,
    /// leaving this position untouched.
    fn with_move(&self, m: Self::Move) -> Self
        requires
            Self::MoveGenerator::may_yield(self, m),
    ;

    /// Checks each possible move of this game, and returns any move that
    /// is an immediate win for the current player, or `None` if no such
    /// move exists.
    fn search_immediate_win(&self) -> (r: Option<Self::Move>)
        ensures
            r matches Some(m) ==> Self::MoveGenerator::may_yield(self, m),
    {
        let me = self.current_player();
        let mut game_iter = self.move_generator();
        loop
            decreases game_iter.remaining(self),
        {
            match game_iter.next(self) {
                Some(m) => {
                    if self.with_move(m).finished() == GameResult::Win(me) {
                        return Some(m);
                    }
                },
                None => { return None },
            }
        }
    }
}

} // verus!
