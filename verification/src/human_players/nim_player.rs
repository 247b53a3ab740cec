//! The human-player front half for Nim: prompting and move parsing.

use vstd::prelude::*;
use vstd::string::StringSliceAdditionalSpecFns;
use vstd::string::StringExecFns;

use crate::error::GameInterfaceError;
use crate::error::GameInterfaceResult;
use crate::game::GameMoveIterator;
use crate::human_players::parse_decimal_u32;
use crate::human_players::spec_parse_u32;
use crate::interactive::human_player::HumanPlayer;
use crate::test_games::Nim;
use crate::test_games::NimMoveIter;

verus! {

/// Prompts for and parses the number of sticks a human wants to take.
pub struct NimPlayer;

impl HumanPlayer for NimPlayer {
    type Game = Nim;

    fn prompt_move_text(&self, game: &Nim) -> (r: String)
        ensures
            r@ == "How many sticks would you like to take? "@ + (
            if game.sticks == 1 {
                "1 is the only option"@
            } else {
                "1 or 2"@
            }),
    {
        let options: &str = if game.sticks() == 1 {
            "1 is the only option"
        } else {
            "1 or 2"
        };
        String::from_str("How many sticks would you like to take? ").concat(options)
    }

    /// Accepts exactly the entered numbers that name a legal Nim move:
    /// at least one stick, at most two, and no more than remain.
    fn parse_move(&self, move_text: &str, game: &Nim) -> (r: GameInterfaceResult<u32>)
        ensures
            match spec_parse_u32(move_text.spec_bytes()) {
                Some(v) => if NimMoveIter::may_yield(game, v) {
                    r == GameInterfaceResult::<u32>::Ok(v)
                } else {
                    r is Err
                },
                None => r is Err,
            },
    {
        let sticks = match parse_decimal_u32(move_text) {
            Some(sticks) => sticks,
            None => {
                return Err(
                    GameInterfaceError::MalformedMove(
                        String::from_str(move_text).concat(" is not a number"),
                    ),
                );
            },
        };

        if sticks == 0 {
            return Err(
                GameInterfaceError::MalformedMove("can't take 0 sticks".to_owned()),
            );
        }
        let cap: u32 = if game.sticks() < Nim::MAX_STICKS_PER_TURN {
            game.sticks()
        } else {
            Nim::MAX_STICKS_PER_TURN
        };
        if sticks > cap {
            return Err(
                GameInterfaceError::MalformedMove(
                    String::from_str(move_text).concat(
                        " is more than can be taken from the sticks remaining",
                    ),
                ),
            );
        }

        Ok(sticks)
    }
}

} // verus!
