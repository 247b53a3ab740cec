//! A player that prompts a human at a terminal-like input source.

use vstd::prelude::*;

use crate::error::GameInterfaceError;
use crate::error::GameInterfaceResult;
use crate::game::Game;
use crate::interactive::human_player::HumanPlayer;
use crate::interactive::input_reader::InputReader;
use crate::interactive::player::MakeMoveControl;
use crate::interactive::player::Player;

verus! {

/// A player that reads one line per move from its input source, lets a
/// game-specific `HumanPlayer` parse it, and rejects moves the game does
/// not actually allow.
pub struct HumanTermPlayer<P, I> {
    pub name: String,
    pub player: P,
    pub input: I,
}

impl<P, I> HumanTermPlayer<P, I> {
    pub fn new(name: String, player: P, input: I) -> (r: HumanTermPlayer<P, I>)
        ensures
            r.name@ == name@,
    {
        HumanTermPlayer { name, player, input }
    }
}

impl<P: HumanPlayer, I: InputReader<Output = String>> Player for HumanTermPlayer<P, I> {
    type Game = P::Game;

    fn display_name(&self) -> (r: String)
        ensures
            r@ == self.name@,
    {
        self.name.clone()
    }

    fn prompt_move_text(&self, game: &P::Game) -> Option<String> {
        Some(self.player.prompt_move_text(game))
    }

    /// Reads a line, parses it, and accepts the move only if the game
    /// itself lists it as legal.
    fn make_move(&mut self, game: &P::Game) -> GameInterfaceResult<
        MakeMoveControl<<P::Game as Game>::Move>,
    > {
        let line = match self.input.next_input() {
            Ok(line) => line,
            Err(err) => { return Err(err) },
        };
        let m = match self.player.parse_move(line.as_str(), game) {
            Ok(m) => m,
            Err(err) => { return Err(err) },
        };

        let moves = game.each_move();
        let mut legal = false;
        let mut i: usize = 0;
        while i < moves.len()
            invariant
                i <= moves@.len(),
            decreases moves@.len() - i,
        {
            if m == moves[i] {
                legal = true;
            }
            i = i + 1;
        }
        if !legal {
            return Err(GameInterfaceError::MalformedMove("not a legal move".to_owned()));
        }

        Ok(MakeMoveControl::Done(m))
    }
}

} // verus!
