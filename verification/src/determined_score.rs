//! The user-facing, fully-resolved projection of a [`Score`].
//!
//! Once no depth-ambiguity remains, a score can be reported as a
//! `DeterminedScore`: either an exact forced win or loss at a known
//! distance, a tie proven out to some depth, or a tie guaranteed at every
//! depth.

use vstd::prelude::*;

use crate::score::MAX_TIE_DEPTH;
use crate::score::Score;
use crate::score::ScoreValue;

verus! {

/// A resolved score report. If `value` is a win or a loss, `moves_to_win`
/// is the exact forced distance to that outcome. If `value` is a tie,
/// `moves_to_win == 0` means proven tied forever, while a positive count
/// means proven tied for at least that many plies and unknown beyond.
#[derive(Clone, Copy, Debug, PartialEq, Eq, Structural)]
pub struct DeterminedScore {
    pub value: ScoreValue,
    pub moves_to_win: u32,
}

impl DeterminedScore {
    /// A report of a tie proven out to `depth` plies.
    pub fn tie(depth: u32) -> (r: DeterminedScore)
        ensures
            r == (DeterminedScore { value: ScoreValue::Tie, moves_to_win: depth }),
    {
        DeterminedScore { value: ScoreValue::Tie, moves_to_win: depth }
    }

    /// A report of a tie guaranteed at every depth.
    pub fn guaranteed_tie() -> (r: DeterminedScore)
        ensures
            r == (DeterminedScore { value: ScoreValue::Tie, moves_to_win: 0 }),
    {
        DeterminedScore { value: ScoreValue::Tie, moves_to_win: 0 }
    }

    /// A report of a forced win for the current player in exactly
    /// `moves_to_win` plies.
    pub fn win(moves_to_win: u32) -> (r: DeterminedScore)
        ensures
            r == (DeterminedScore { value: ScoreValue::CurrentPlayerWins, moves_to_win }),
    {
        DeterminedScore { value: ScoreValue::CurrentPlayerWins, moves_to_win }
    }

    /// A report of a forced loss for the current player in exactly
    /// `moves_to_win` plies.
    pub fn lose(moves_to_win: u32) -> (r: DeterminedScore)
        ensures
            r == (DeterminedScore { value: ScoreValue::OtherPlayerWins, moves_to_win }),
    {
        DeterminedScore { value: ScoreValue::OtherPlayerWins, moves_to_win }
    }

    /// The report clamped to claim no certainty beyond `depth`: a win or
    /// loss farther away than `depth` degrades to a tie proven to `depth`,
    /// and a tie horizon is capped at `depth`.
    pub open spec fn spec_truncated(self, depth: u32) -> DeterminedScore {
        match self.value {
            ScoreValue::Tie => if self.moves_to_win == 0 || self.moves_to_win > depth {
                DeterminedScore { value: ScoreValue::Tie, moves_to_win: depth }
            } else {
                self
            },
            _ => if self.moves_to_win <= depth {
                self
            } else {
                DeterminedScore { value: ScoreValue::Tie, moves_to_win: depth }
            },
        }
    }

    /// Reports this result as a search limited to `depth` plies would
    /// honestly report it.
    pub fn truncated(&self, depth: u32) -> (r: DeterminedScore)
        ensures
            r == self.spec_truncated(depth),
    {
        match self.value {
            ScoreValue::Tie => {
                if self.moves_to_win == 0 || self.moves_to_win > depth {
                    DeterminedScore { value: ScoreValue::Tie, moves_to_win: depth }
                } else {
                    *self
                }
            },
            ScoreValue::CurrentPlayerWins | ScoreValue::OtherPlayerWins => {
                if self.moves_to_win <= depth {
                    *self
                } else {
                    DeterminedScore { value: ScoreValue::Tie, moves_to_win: depth }
                }
            },
        }
    }

    /// What [`DeterminedScore::from_score`] reports for a score: nothing
    /// for the no-information score; the guaranteed tie for a score tied at
    /// every depth; a depth-bounded tie for any other tie-only score; the
    /// decided outcome at its exact distance when the score is fully
    /// determined (its tie-proven region reaches right up to the decided
    /// ply); and nothing otherwise.
    pub open spec fn spec_from_score(score: Score) -> Option<DeterminedScore> {
        if score == Score::spec_no_info() {
            None
        } else if score.turn_count_tie == MAX_TIE_DEPTH {
            Some(DeterminedScore { value: ScoreValue::Tie, moves_to_win: 0 })
        } else if score.turn_count_win == 0 {
            Some(DeterminedScore { value: ScoreValue::Tie, moves_to_win: score.turn_count_tie })
        } else if score.turn_count_tie + 1 == score.turn_count_win {
            Some(DeterminedScore {
                value: if score.cur_player_wins {
                    ScoreValue::CurrentPlayerWins
                } else {
                    ScoreValue::OtherPlayerWins
                },
                moves_to_win: score.turn_count_win,
            })
        } else {
            None
        }
    }

    /// Turns accumulated search knowledge into a reportable result, when
    /// the score is unambiguous at every depth.
    pub fn from_score(score: Score) -> (r: Option<DeterminedScore>)
        requires
            score.wf(),
            !score.spec_is_ancestor(),
        ensures
            r == DeterminedScore::spec_from_score(score),
    {
        if score.has_no_info() {
            None
        } else if score.is_guaranteed_tie() {
            Some(DeterminedScore::guaranteed_tie())
        } else if score.is_tie() {
            Some(DeterminedScore::tie(score.determined_depth()))
        } else if score.turn_count_tie() + 1 == score.turn_count_win() {
            let depth = score.determined_depth();
            let value = score.score_at_depth(depth);
            Some(DeterminedScore { value, moves_to_win: depth })
        } else {
            None
        }
    }
}

} // verus!
