//! Helpers for driving a game with deterministic-seedable random play,
//! used to generate positions and walks for exercising games and
//! solvers.

use vstd::prelude::*;

use rand::Rng;

use crate::game::Game;
use crate::game::GameMoveIterator;

verus! {

pub type AbstractGameResult<T = ()> = Result<T, String>;

/// How many times to retry producing an unfinished position.
const UNFINISHED_STATE_ATTEMPTS: usize = 500;

/// How many retries each requested state gets.
const ATTEMPTS_PER_STATE: usize = 100;

/// The longest random walk attempted before giving up on a game.
const MAX_WALK_MOVES: usize = 1000;

/// Relies on rand's `Rng::random_range` over `0..n`: returns a uniformly
/// drawn value of the range, and panics on an empty range, which the
/// precondition rules out. Nothing more is assumed of the draw: callers
/// hold for every value below `n`.
#[verifier::external_body]
fn draw_index<R: Rng>(rng: &mut R, n: usize) -> (r: usize)
    requires
        n >= 1,
    ensures
        r < n,
{
    rng.random_range(0..n)
}

/// Relies on the standard slice `sort`: it reorders the elements of the
/// vector in place and neither adds, drops, nor changes any.
#[verifier::external_body]
fn sort_moves<T: Ord>(moves: &mut Vec<T>)
    ensures
        final(moves)@.len() == old(moves)@.len(),
        final(moves)@.to_multiset() == old(moves)@.to_multiset(),
        forall|x: T| final(moves)@.contains(x) == old(moves)@.contains(x),
{
    moves.sort();
}

/// Plays one uniformly drawn legal move on `game`, choosing among the
/// legal moves in a fixed (sorted) order so that equal seeds give equal
/// play; returns the move, or `None` if no move is available.
pub fn make_deterministic_random_move<G: Game, R: Rng>(game: &mut G, rng: &mut R) -> (r: Option<
    G::Move,
>) where G::Move: Ord
    ensures
        r matches Some(m) ==> <G as Game>::MoveGenerator::may_yield(old(game), m),
{
    let mut moves = game.each_move();
    if moves.len() == 0 {
        return None;
    }

    let ghost generated = moves@;
    sort_moves(&mut moves);
    let idx = draw_index(rng, moves.len());
    let m = moves[idx];
    proof {
        assert(moves@.contains(m));
        assert(generated.contains(m));
        let j = choose|j: int| 0 <= j < generated.len() && generated[j] == m;
        assert(<G as Game>::MoveGenerator::may_yield(game, generated[j]));
    }
    game.make_move(m);
    Some(m)
}

/// Plays up to `num_moves` uniformly drawn moves in the game, returning
/// the number of moves played if the game finished on the last of them,
/// and `num_moves + 1` if the game did not finish.
pub fn deterministic_random_playout<G: Game, R: Rng>(
    game: &mut G,
    num_moves: usize,
    rng: &mut R,
) -> (r: usize) where G::Move: Ord
    requires
        num_moves < usize::MAX,
    ensures
        1 <= r <= num_moves + 1,
{
    let mut i: usize = 1;
    while i <= num_moves
        invariant
            1 <= i <= num_moves + 1,
            num_moves < usize::MAX,
        decreases num_moves + 1 - i,
    {
        make_deterministic_random_move(game, rng);
        if game.finished().is_finished() {
            return i;
        }
        i = i + 1;
    }
    num_moves + 1
}

/// A copy of `game` advanced by up to `num_moves` random moves without
/// finishing, or an error if no unfinished position was reached after
/// many attempts.
pub fn deterministic_random_unfinished_state<G: Game, R: Rng>(
    game: &G,
    num_moves: usize,
    rng: &mut R,
) -> AbstractGameResult<G> where G::Move: Ord
    requires
        num_moves < usize::MAX,
{
    let mut attempt: usize = 0;
    while attempt < UNFINISHED_STATE_ATTEMPTS
        invariant
            num_moves < usize::MAX,
        decreases UNFINISHED_STATE_ATTEMPTS - attempt,
    {
        let mut tmp = game.clone();
        if deterministic_random_playout(&mut tmp, num_moves, rng) > num_moves {
            return Ok(tmp);
        }
        attempt = attempt + 1;
    }

    Err("failed to make an unfinished game after 500 attempts".to_owned())
}

/// `count` copies of `initial_state`, each advanced by up to `num_moves`
/// random moves without finishing, or an error if they could not be
/// produced after many attempts.
pub fn generate_deterministic_random_unfinished_states<G: Game, R: Rng>(
    initial_state: &G,
    count: usize,
    num_moves: usize,
    rng: &mut R,
) -> (r: AbstractGameResult<Vec<G>>) where G::Move: Ord
    requires
        num_moves < usize::MAX,
        count <= usize::MAX / 100,
    ensures
        r matches Ok(states) ==> states@.len() == count,
{
    let mut states: Vec<G> = Vec::new();

    let attempts: usize = ATTEMPTS_PER_STATE * count;
    let mut attempt: usize = 0;
    while attempt < attempts
        invariant
            num_moves < usize::MAX,
            attempts == ATTEMPTS_PER_STATE * count,
            states@.len() < count || (count == 0 && states@.len() == 0),
        decreases attempts - attempt,
    {
        let mut game = initial_state.clone();
        if deterministic_random_playout(&mut game, num_moves, rng) > num_moves {
            states.push(game);
        }
        if states.len() == count {
            return Ok(states);
        }
        attempt = attempt + 1;
    }

    Err("failed to generate the requested number of random states".to_owned())
}

/// `count` random walks from `initial_state`, each the list of moves of
/// a game played randomly to its end, or an error if a game would not
/// finish within a reasonable number of moves.
pub fn generate_deterministic_random_walks<G: Game, R: Rng>(
    initial_state: &G,
    count: usize,
    rng: &mut R,
) -> (r: AbstractGameResult<Vec<Vec<G::Move>>>) where G::Move: Ord
    ensures
        r matches Ok(walks) ==> walks@.len() == count,
{
    let mut walks: Vec<Vec<G::Move>> = Vec::new();
    let mut w: usize = 0;
    while w < count
        invariant
            walks@.len() == w <= count,
        decreases count - w,
    {
        let mut game = initial_state.clone();
        let mut moves: Vec<G::Move> = Vec::new();
        let mut finished_walk = false;
        let mut step: usize = 0;
        while step < MAX_WALK_MOVES
            invariant
                step <= MAX_WALK_MOVES,
            decreases MAX_WALK_MOVES - step,
        {
            if game.finished().is_finished() {
                finished_walk = true;
                break;
            }
            match make_deterministic_random_move(&mut game, rng) {
                Some(m) => { moves.push(m) },
                None => {
                    finished_walk = true;
                    break;
                },
            }
            step = step + 1;
        }
        if !finished_walk {
            return Err(
                "exceeded the maximum number of moves without finishing the game".to_owned(),
            );
        }
        walks.push(moves);
        w = w + 1;
    }
    Ok(walks)
}

} // verus!
