//! The partial-knowledge score for two-player game-tree search.
//!
//! A `Score` records how much is known about a position: up to which ply it
//! is proven that neither side can force a win (`turn_count_tie`), and, if a
//! forced outcome has been found, in how many plies it arrives
//! (`turn_count_win`, with `0` standing for "no decided outcome known") and
//! who wins it (`cur_player_wins`). The two regions never overlap: whenever
//! an outcome is decided, the tie-proven horizon stays strictly below it.
//!
//! The score is a small value type with its counters held as plain fields,
//! range-limited as an eleven-bit field would be, and its invariants stated
//! by [`Score::wf`], which the constructors establish and every operation
//! preserves.

use vstd::prelude::*;

verus! {

/// The deepest tie horizon a score can record. A score whose tie horizon
/// equals this value is treated as tied at every depth.
pub const MAX_TIE_DEPTH: u32 = 2047;

/// The upper limit of the decided-outcome counter. Constructors stay
/// strictly below it so that one `backstep` is always possible.
pub const MAX_WIN_DEPTH: u32 = 2047;

/// The resolved outcome of a position at one specific search depth.
#[derive(Clone, Copy, Debug, PartialEq, Eq, Structural)]
pub enum ScoreValue {
    CurrentPlayerWins,
    OtherPlayerWins,
    Tie,
}

/// Partial minimax knowledge about a position.
///
/// - For any depth `d <= turn_count_tie` the position is proven tied at `d`.
/// - If `turn_count_win != 0`, for any depth `d >= turn_count_win` the
///   position is proven decided, for the current player exactly when
///   `cur_player_wins` holds, reachable in `turn_count_win` plies.
/// - Depths strictly between the two horizons are undetermined.
///
/// `cur_player_wins` together with `turn_count_win == 0` is reserved for the
/// in-progress marker produced by [`Score::ancestor`]; no other constructor
/// yields that combination.
#[derive(Clone, Copy, Debug, PartialEq, Eq, Structural)]
pub struct Score {
    pub cur_player_wins: bool,
    pub turn_count_tie: u32,
    pub turn_count_win: u32,
}

impl Score {
    /// The invariant every score in circulation satisfies: counters are in
    /// range, the tie-proven region never overlaps the decided region, and a
    /// claimed current-player win without a decided depth is only the
    /// in-progress marker.
    pub open spec fn wf(self) -> bool {
        &&& self.turn_count_tie <= MAX_TIE_DEPTH
        &&& self.turn_count_win <= MAX_WIN_DEPTH
        &&& (self.turn_count_win != 0 ==> self.turn_count_tie < self.turn_count_win)
        &&& (self.cur_player_wins && self.turn_count_win == 0 ==> self.turn_count_tie == 0)
    }

    /// The in-progress marker: a claimed current-player win with no decided
    /// depth, a combination no other constructor produces.
    pub open spec fn spec_is_ancestor(self) -> bool {
        self.cur_player_wins && self.turn_count_win == 0
    }

    /// Raw constructor. `turn_count_win == 0` means no decided outcome is
    /// known, in which case no winner may be claimed; otherwise the
    /// tie-proven horizon must stay strictly below the decided depth.
    pub fn new(cur_player_wins: bool, turn_count_tie: u32, turn_count_win: u32) -> (r: Score)
        requires
            turn_count_tie <= MAX_TIE_DEPTH,
            turn_count_win < MAX_WIN_DEPTH,
            cur_player_wins ==> turn_count_win != 0,
            turn_count_win != 0 ==> turn_count_tie < turn_count_win,
        ensures
            r == (Score { cur_player_wins, turn_count_tie, turn_count_win }),
            r.wf(),
            !r.spec_is_ancestor(),
    {
        Score { cur_player_wins, turn_count_tie, turn_count_win }
    }

    /// True if this score contains no information at all.
    pub fn has_no_info(&self) -> (r: bool)
        ensures
            r == (*self == Score::spec_no_info()),
    {
        !self.cur_player_wins && self.turn_count_tie == 0 && self.turn_count_win == 0
    }

    /// True if no decided outcome is known, i.e. the score only carries a
    /// tie-proven horizon.
    pub fn is_tie(&self) -> (r: bool)
        ensures
            r == (self.turn_count_win == 0),
    {
        self.turn_count_win == 0
    }

    /// True if the position is proven tied out to the deepest representable
    /// horizon, which stands for "tied at every depth".
    pub fn is_guaranteed_tie(&self) -> (r: bool)
        ensures
            r == (self.turn_count_tie == MAX_TIE_DEPTH),
    {
        self.turn_count_tie == MAX_TIE_DEPTH
    }

    /// True if this score is the in-progress marker, e.g. its position is
    /// currently being evaluated higher up the call stack.
    pub fn is_ancestor(&self) -> (r: bool)
        ensures
            r == self.spec_is_ancestor(),
    {
        self.cur_player_wins && self.turn_count_win == 0
    }

    /// A `Score` for the current player winning in `turn_count_win` plies,
    /// with no claim about faster wins being impossible.
    pub fn win(turn_count_win: u32) -> (r: Score)
        requires
            0 < turn_count_win < MAX_WIN_DEPTH,
        ensures
            r == (Score { cur_player_wins: true, turn_count_tie: 0, turn_count_win }),
            r.wf(),
            !r.spec_is_ancestor(),
    {
        Score { cur_player_wins: true, turn_count_tie: 0, turn_count_win }
    }

    /// A `Score` for the current player winning in `turn_count_win` plies,
    /// known to be the fastest possible win: the tie region is proven right
    /// up to the winning ply.
    pub fn optimal_win(turn_count_win: u32) -> (r: Score)
        requires
            0 < turn_count_win < MAX_WIN_DEPTH,
        ensures
            r == (Score {
                cur_player_wins: true,
                turn_count_tie: (turn_count_win - 1) as u32,
                turn_count_win,
            }),
            r.wf(),
            !r.spec_is_ancestor(),
    {
        Score { cur_player_wins: true, turn_count_tie: turn_count_win - 1, turn_count_win }
    }

    /// A `Score` for the current player losing in `turn_count_lose` plies.
    pub fn lose(turn_count_lose: u32) -> (r: Score)
        requires
            0 < turn_count_lose < MAX_WIN_DEPTH,
        ensures
            r == (Score {
                cur_player_wins: false,
                turn_count_tie: 0,
                turn_count_win: turn_count_lose,
            }),
            r.wf(),
            !r.spec_is_ancestor(),
    {
        Score { cur_player_wins: false, turn_count_tie: 0, turn_count_win: turn_count_lose }
    }

    /// A `Score` for the current player losing in `turn_count_lose` plies,
    /// known to be unavoidable no earlier: the tie region is proven right up
    /// to the losing ply.
    pub fn optimal_lose(turn_count_lose: u32) -> (r: Score)
        requires
            0 < turn_count_lose < MAX_WIN_DEPTH,
        ensures
            r == (Score {
                cur_player_wins: false,
                turn_count_tie: (turn_count_lose - 1) as u32,
                turn_count_win: turn_count_lose,
            }),
            r.wf(),
            !r.spec_is_ancestor(),
    {
        Score { cur_player_wins: false, turn_count_tie: turn_count_lose - 1, turn_count_win: turn_count_lose }
    }

    /// A `Score` proving that no forced win exists within `turn_count_tie`
    /// plies, with no decided outcome known.
    pub fn tie(turn_count_tie: u32) -> (r: Score)
        requires
            turn_count_tie <= MAX_TIE_DEPTH,
        ensures
            r == (Score { cur_player_wins: false, turn_count_tie, turn_count_win: 0 }),
            r.wf(),
            !r.spec_is_ancestor(),
    {
        Score { cur_player_wins: false, turn_count_tie, turn_count_win: 0 }
    }

    /// A `Score` proving a tie at every depth.
    pub fn guaranteed_tie() -> (r: Score)
        ensures
            r == (Score {
                cur_player_wins: false,
                turn_count_tie: MAX_TIE_DEPTH,
                turn_count_win: 0,
            }),
            r.wf(),
            !r.spec_is_ancestor(),
    {
        Score { cur_player_wins: false, turn_count_tie: MAX_TIE_DEPTH, turn_count_win: 0 }
    }

    /// The score carrying no information, equivalent to a tie proven to
    /// depth zero.
    pub open spec fn spec_no_info() -> Score {
        Score { cur_player_wins: false, turn_count_tie: 0, turn_count_win: 0 }
    }

    /// A `Score` with no information at all.
    pub fn no_info() -> (r: Score)
        ensures
            r == Score::spec_no_info(),
            r.wf(),
            !r.spec_is_ancestor(),
    {
        Score { cur_player_wins: false, turn_count_tie: 0, turn_count_win: 0 }
    }

    /// Marks a game state as an ancestor of the subtree currently being
    /// explored; a cycle-avoiding search overwrites it with the real score
    /// once the evaluation finishes.
    pub fn ancestor() -> (r: Score)
        ensures
            r == (Score { cur_player_wins: true, turn_count_tie: 0, turn_count_win: 0 }),
            r.wf(),
            r.spec_is_ancestor(),
    {
        Score { cur_player_wins: true, turn_count_tie: 0, turn_count_win: 0 }
    }

    pub fn cur_player_wins(&self) -> (r: bool)
        ensures
            r == self.cur_player_wins,
    {
        self.cur_player_wins
    }

    pub fn turn_count_tie(&self) -> (r: u32)
        ensures
            r == self.turn_count_tie,
    {
        self.turn_count_tie
    }

    pub fn turn_count_win(&self) -> (r: u32)
        ensures
            r == self.turn_count_win,
    {
        self.turn_count_win
    }

    /// The deepest ply this score carries any certainty about.
    pub open spec fn spec_determined_depth(self) -> u32 {
        if self.turn_count_tie >= self.turn_count_win {
            self.turn_count_tie
        } else {
            self.turn_count_win
        }
    }

    /// The maximum depth that this score is determined to.
    pub fn determined_depth(&self) -> (r: u32)
        ensures
            r == self.spec_determined_depth(),
    {
        if self.turn_count_tie >= self.turn_count_win {
            self.turn_count_tie
        } else {
            self.turn_count_win
        }
    }

    /// True when a full search `search_depth` plies deep is guaranteed to
    /// reproduce the answer this score already encodes: the depth lies in
    /// the tie-proven region or at or beyond the decided ply.
    pub open spec fn spec_determined(self, search_depth: u32) -> bool {
        search_depth <= self.turn_count_tie || (self.turn_count_win != 0
            && search_depth >= self.turn_count_win)
    }

    /// True if this score can be used in place of a search that goes
    /// `search_depth` moves deep.
    pub fn determined(&self, search_depth: u32) -> (r: bool)
        ensures
            r == self.spec_determined(search_depth),
    {
        search_depth <= self.turn_count_tie || (self.turn_count_win != 0
            && search_depth >= self.turn_count_win)
    }

    /// The outcome this score assigns to a search `depth` plies deep,
    /// meaningful only where `spec_determined(depth)` holds.
    pub open spec fn spec_score_at(self, depth: u32) -> ScoreValue {
        if depth <= self.turn_count_tie {
            ScoreValue::Tie
        } else if self.cur_player_wins {
            ScoreValue::CurrentPlayerWins
        } else {
            ScoreValue::OtherPlayerWins
        }
    }

    /// The score of the game given `depth` moves to play. Callers must
    /// guarantee that the score is determined at `depth`; querying a depth
    /// in the undetermined gap is a contract violation.
    pub fn score_at_depth(&self, depth: u32) -> (r: ScoreValue)
        requires
            self.wf(),
            !self.spec_is_ancestor(),
            self.spec_determined(depth),
        ensures
            r == self.spec_score_at(depth),
            (r == ScoreValue::Tie) <==> depth <= self.turn_count_tie,
    {
        if depth <= self.turn_count_tie {
            ScoreValue::Tie
        } else if self.cur_player_wins {
            ScoreValue::CurrentPlayerWins
        } else {
            ScoreValue::OtherPlayerWins
        }
    }

    /// The outcome this score assigns to a search `depth` plies deep, or
    /// `None` where the score is not determined at `depth`: the checked
    /// companion of `score_at_depth` for use at trust boundaries.
    pub fn checked_score_at_depth(&self, depth: u32) -> (r: Option<ScoreValue>)
        requires
            self.wf(),
            !self.spec_is_ancestor(),
        ensures
            r == (if self.spec_determined(depth) {
                Some(self.spec_score_at(depth))
            } else {
                None::<ScoreValue>
            }),
    {
        if self.determined(depth) {
            Some(self.score_at_depth(depth))
        } else {
            None
        }
    }

    /// The score one ply earlier, from the parent's point of view: the side
    /// to move flips, a decided outcome arrives one ply later, and the
    /// tie-proven horizon grows by one ply unless already at its maximum.
    pub open spec fn spec_backstep(self) -> Score {
        if self.turn_count_win == 0 {
            Score {
                cur_player_wins: self.cur_player_wins,
                turn_count_tie: if self.turn_count_tie == MAX_TIE_DEPTH {
                    MAX_TIE_DEPTH
                } else {
                    (self.turn_count_tie + 1) as u32
                },
                turn_count_win: 0,
            }
        } else {
            Score {
                cur_player_wins: !self.cur_player_wins,
                turn_count_tie: (self.turn_count_tie + 1) as u32,
                turn_count_win: (self.turn_count_win + 1) as u32,
            }
        }
    }

    /// Transforms a score at a given state of the game to how that score
    /// would appear from the perspective of a game state one step before
    /// it: a win for one player in `n` plies becomes a win for the other
    /// player in `n + 1` plies.
    pub fn backstep(&self) -> (r: Score)
        requires
            self.wf(),
            !self.spec_is_ancestor(),
            self.turn_count_win < MAX_WIN_DEPTH,
        ensures
            r == self.spec_backstep(),
            r.wf(),
            !r.spec_is_ancestor(),
    {
        if self.turn_count_win == 0 {
            let turn_count_tie: u32 = if self.turn_count_tie == MAX_TIE_DEPTH {
                MAX_TIE_DEPTH
            } else {
                self.turn_count_tie + 1
            };
            Score { cur_player_wins: self.cur_player_wins, turn_count_tie, turn_count_win: 0 }
        } else {
            Score {
                cur_player_wins: !self.cur_player_wins,
                turn_count_tie: self.turn_count_tie + 1,
                turn_count_win: self.turn_count_win + 1,
            }
        }
    }

    /// The score one ply later, from the child's point of view: the inverse
    /// of `spec_backstep` away from the counters' boundaries.
    pub open spec fn spec_forwardstep(self) -> Score {
        if self.turn_count_win == 0 {
            Score {
                cur_player_wins: self.cur_player_wins,
                turn_count_tie: if self.turn_count_tie == 0 || self.turn_count_tie
                    == MAX_TIE_DEPTH {
                    self.turn_count_tie
                } else {
                    (self.turn_count_tie - 1) as u32
                },
                turn_count_win: 0,
            }
        } else {
            Score {
                cur_player_wins: !self.cur_player_wins,
                turn_count_tie: if self.turn_count_tie == 0 {
                    0
                } else {
                    (self.turn_count_tie - 1) as u32
                },
                turn_count_win: if self.turn_count_win == 1 {
                    1
                } else {
                    (self.turn_count_win - 1) as u32
                },
            }
        }
    }

    /// Transforms a score at a given state of the game to how that score
    /// would appear from the perspective of a game state one step after it:
    /// a win for one player in `n` plies becomes a win for the other player
    /// in `n - 1` plies.
    pub fn forwardstep(&self) -> (r: Score)
        requires
            self.wf(),
            !self.spec_is_ancestor(),
        ensures
            r == self.spec_forwardstep(),
            r.wf(),
            !r.spec_is_ancestor(),
    {
        if self.turn_count_win == 0 {
            let turn_count_tie: u32 = if self.turn_count_tie == 0 || self.turn_count_tie
                == MAX_TIE_DEPTH {
                self.turn_count_tie
            } else {
                self.turn_count_tie - 1
            };
            Score { cur_player_wins: self.cur_player_wins, turn_count_tie, turn_count_win: 0 }
        } else {
            let turn_count_tie: u32 = if self.turn_count_tie == 0 {
                0
            } else {
                self.turn_count_tie - 1
            };
            let turn_count_win: u32 = if self.turn_count_win == 1 {
                1
            } else {
                self.turn_count_win - 1
            };
            Score { cur_player_wins: !self.cur_player_wins, turn_count_tie, turn_count_win }
        }
    }

    /// True when the two scores assert no contradictory knowledge: neither
    /// decided ply falls inside the other's tie-proven region, and whenever
    /// both sides claim a decided outcome they agree on the winner.
    pub open spec fn spec_compatible(self, other: Score) -> bool {
        &&& (self.turn_count_win != 0 ==> self.turn_count_win > other.turn_count_tie)
        &&& (other.turn_count_win != 0 ==> other.turn_count_win > self.turn_count_tie)
        &&& (self.turn_count_win != 0 && other.turn_count_win != 0 ==> self.cur_player_wins
            == other.cur_player_wins)
    }

    /// Returns true if the two scores don't contain conflicting
    /// information; if true, the scores can be safely `Score::merge`d.
    pub fn compatible(&self, other: Score) -> (r: bool)
        requires
            self.wf(),
            other.wf(),
        ensures
            r == self.spec_compatible(other),
    {
        (self.turn_count_win == 0 || self.turn_count_win > other.turn_count_tie)
            && (other.turn_count_win == 0 || other.turn_count_win > self.turn_count_tie)
            && (self.turn_count_win == 0 || other.turn_count_win == 0 || self.cur_player_wins
            == other.cur_player_wins)
    }

    /// The combination of two compatible scores: the deeper tie-proven
    /// horizon, the shallower decided ply, and the winner claimed by
    /// whichever side is decided.
    pub open spec fn spec_merge(self, other: Score) -> Score {
        Score {
            cur_player_wins: self.cur_player_wins || other.cur_player_wins,
            turn_count_tie: if self.turn_count_tie >= other.turn_count_tie {
                self.turn_count_tie
            } else {
                other.turn_count_tie
            },
            turn_count_win: if self.turn_count_win == 0 {
                other.turn_count_win
            } else if other.turn_count_win == 0 {
                self.turn_count_win
            } else if self.turn_count_win <= other.turn_count_win {
                self.turn_count_win
            } else {
                other.turn_count_win
            },
        }
    }

    /// Merges the information contained in another score into this one,
    /// producing a score no less informative than either. The scores must
    /// be compatible.
    pub fn merge(&self, other: Score) -> (r: Score)
        requires
            self.wf(),
            other.wf(),
            !self.spec_is_ancestor(),
            !other.spec_is_ancestor(),
            self.spec_compatible(other),
        ensures
            r == self.spec_merge(other),
            r.wf(),
            !r.spec_is_ancestor(),
    {
        let turn_count_tie: u32 = if self.turn_count_tie >= other.turn_count_tie {
            self.turn_count_tie
        } else {
            other.turn_count_tie
        };
        let turn_count_win: u32 = if self.turn_count_win == 0 {
            other.turn_count_win
        } else if other.turn_count_win == 0 {
            self.turn_count_win
        } else if self.turn_count_win <= other.turn_count_win {
            self.turn_count_win
        } else {
            other.turn_count_win
        };
        Score {
            cur_player_wins: self.cur_player_wins || other.cur_player_wins,
            turn_count_tie,
            turn_count_win,
        }
    }

    /// The strict preference order on scores from the current player's
    /// point of view: a claimed current-player win beats everything else, a
    /// tie-only score beats a loss; among wins a nearer win is better,
    /// among losses a later loss is better, among ties a deeper proven
    /// horizon is better, and equal horizons fall back to the deeper
    /// tie-proven region. The in-progress marker sorts above every real
    /// win.
    pub open spec fn spec_better(self, other: Score) -> bool {
        if self.cur_player_wins != other.cur_player_wins {
            self.cur_player_wins
        } else if self.turn_count_win == other.turn_count_win {
            self.turn_count_tie > other.turn_count_tie
        } else if self.cur_player_wins {
            if self.turn_count_win == 0 {
                true
            } else if other.turn_count_win == 0 {
                false
            } else {
                self.turn_count_win < other.turn_count_win
            }
        } else {
            if self.turn_count_win == 0 {
                true
            } else if other.turn_count_win == 0 {
                false
            } else {
                self.turn_count_win > other.turn_count_win
            }
        }
    }

    /// True if this score is better than `other` for the current player.
    pub fn better(&self, other: Score) -> (r: bool)
        requires
            self.wf(),
            other.wf(),
        ensures
            r == self.spec_better(other),
    {
        if self.cur_player_wins != other.cur_player_wins {
            self.cur_player_wins
        } else if self.turn_count_win == other.turn_count_win {
            self.turn_count_tie > other.turn_count_tie
        } else if self.cur_player_wins {
            if self.turn_count_win == 0 {
                true
            } else if other.turn_count_win == 0 {
                false
            } else {
                self.turn_count_win < other.turn_count_win
            }
        } else {
            if self.turn_count_win == 0 {
                true
            } else if other.turn_count_win == 0 {
                false
            } else {
                self.turn_count_win > other.turn_count_win
            }
        }
    }

    /// The same score with its tie-proven horizon dropped to zero, keeping
    /// any decided outcome. Used for a game state where not all possible
    /// next moves were explored: a forced win found in the explored part
    /// still stands, but no claim remains that shallower forced wins are
    /// impossible.
    pub fn break_early(&self) -> (r: Score)
        requires
            self.wf(),
        ensures
            r == (Score {
                cur_player_wins: self.cur_player_wins,
                turn_count_tie: 0,
                turn_count_win: self.turn_count_win,
            }),
            r.wf(),
    {
        Score { cur_player_wins: self.cur_player_wins, turn_count_tie: 0, turn_count_win: self.turn_count_win }
    }
}

impl PartialOrd for Score {
    /// The `better` order as a comparison: greater means better for the
    /// current player, and two scores compare equal exactly when they
    /// are the same score.
    fn partial_cmp(&self, other: &Score) -> (r: Option<core::cmp::Ordering>) {
        let better = if self.cur_player_wins != other.cur_player_wins {
            self.cur_player_wins
        } else if self.turn_count_win == other.turn_count_win {
            self.turn_count_tie > other.turn_count_tie
        } else if self.turn_count_win == 0 {
            true
        } else if other.turn_count_win == 0 {
            false
        } else if self.cur_player_wins {
            self.turn_count_win < other.turn_count_win
        } else {
            self.turn_count_win > other.turn_count_win
        };
        if better {
            Some(core::cmp::Ordering::Greater)
        } else if *self == *other {
            Some(core::cmp::Ordering::Equal)
        } else {
            Some(core::cmp::Ordering::Less)
        }
    }
}

impl vstd::std_specs::cmp::PartialOrdSpecImpl for Score {
    open spec fn obeys_partial_cmp_spec() -> bool {
        true
    }

    open spec fn partial_cmp_spec(&self, other: &Score) -> Option<core::cmp::Ordering> {
        if self.spec_better(*other) {
            Some(core::cmp::Ordering::Greater)
        } else if *self == *other {
            Some(core::cmp::Ordering::Equal)
        } else {
            Some(core::cmp::Ordering::Less)
        }
    }
}

/// Compatibility is symmetric: two scores contradict each other from
/// either side or from neither.
pub proof fn lemma_compatible_symmetric(a: Score, b: Score)
    requires
        a.wf(),
        b.wf(),
    ensures
        a.spec_compatible(b) == b.spec_compatible(a),
{
}

/// Every score is compatible with the no-information score, and merging
/// with it changes nothing.
pub proof fn lemma_merge_no_info_identity(a: Score)
    requires
        a.wf(),
    ensures
        a.spec_compatible(Score::spec_no_info()),
        Score::spec_no_info().spec_compatible(a),
        a.spec_merge(Score::spec_no_info()) == a,
        Score::spec_no_info().spec_merge(a) == a,
{
}

/// Merging compatible scores is commutative.
pub proof fn lemma_merge_commutative(a: Score, b: Score)
    requires
        a.wf(),
        b.wf(),
        a.spec_compatible(b),
    ensures
        a.spec_merge(b) == b.spec_merge(a),
{
}

/// Merging loses no knowledge: wherever one operand is determined, the
/// merged score is determined too and reports the same outcome.
pub proof fn lemma_merge_no_less_informative(a: Score, b: Score, d: u32)
    requires
        a.wf(),
        b.wf(),
        !a.spec_is_ancestor(),
        !b.spec_is_ancestor(),
        a.spec_compatible(b),
        a.spec_determined(d),
    ensures
        a.spec_merge(b).spec_determined(d),
        a.spec_merge(b).spec_score_at(d) == a.spec_score_at(d),
{
}

/// Merging compatible, non-marker scores yields a well-formed score again.
pub proof fn lemma_merge_wf(a: Score, b: Score)
    requires
        a.wf(),
        b.wf(),
        !a.spec_is_ancestor(),
        !b.spec_is_ancestor(),
        a.spec_compatible(b),
    ensures
        a.spec_merge(b).wf(),
        !a.spec_merge(b).spec_is_ancestor(),
{
}

/// Stepping a score back to the parent's perspective and forward again
/// returns the original score, for any non-marker score whose counters
/// leave room for the round trip: the decided ply must be able to grow by
/// one, and a finite tie horizon must not land on the tied-forever
/// sentinel.
pub proof fn lemma_forwardstep_backstep(s: Score)
    requires
        s.wf(),
        !s.spec_is_ancestor(),
        s.turn_count_win < MAX_WIN_DEPTH,
        s.turn_count_win == 0 ==> s.turn_count_tie == MAX_TIE_DEPTH || s.turn_count_tie + 1
            < MAX_TIE_DEPTH,
    ensures
        s.spec_backstep().spec_forwardstep() == s,
{
}

/// Stepping a score forward to the child's perspective and back again
/// returns the original score, for any non-marker score away from the
/// counters' lower boundaries: a decided ply of at least two and a
/// tie-proven horizon of at least one (or at the tied-forever sentinel).
pub proof fn lemma_backstep_forwardstep(s: Score)
    requires
        s.wf(),
        !s.spec_is_ancestor(),
        s.turn_count_tie >= 1,
        s.turn_count_win != 0 ==> s.turn_count_win >= 2,
    ensures
        s.spec_forwardstep().spec_backstep() == s,
{
}

/// The preference order is irreflexive: no score is better than itself.
pub proof fn lemma_better_irreflexive(a: Score)
    requires
        a.wf(),
    ensures
        !a.spec_better(a),
{
}

/// The preference order is transitive.
pub proof fn lemma_better_transitive(a: Score, b: Score, c: Score)
    requires
        a.wf(),
        b.wf(),
        c.wf(),
        a.spec_better(b),
        b.spec_better(c),
    ensures
        a.spec_better(c),
{
}

/// The preference order is trichotomous: for any two well-formed scores,
/// exactly one of `a` better than `b`, `a` equal to `b`, or `b` better
/// than `a` holds. Together with irreflexivity and transitivity this makes
/// `better` a strict total order.
pub proof fn lemma_better_trichotomy(a: Score, b: Score)
    requires
        a.wf(),
        b.wf(),
    ensures
        a.spec_better(b) || b.spec_better(a) || a == b,
        a.spec_better(b) ==> !b.spec_better(a) && a != b,
        b.spec_better(a) ==> !a.spec_better(b) && a != b,
        a == b ==> !a.spec_better(b) && !b.spec_better(a),
{
}

} // verus!
