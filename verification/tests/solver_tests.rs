use abstract_game::complete_solver::CompleteSolver;
use abstract_game::determined_score::DeterminedScore;
use abstract_game::interactive::bot_player::BotPlayer;
use abstract_game::interactive::player::MakeMoveControl;
use abstract_game::interactive::player::Player;
use abstract_game::test_games::Nim;
use abstract_game::Game;
use abstract_game::GameInterfaceError;
use abstract_game::GamePlayer;
use abstract_game::GameResult;
use abstract_game::MoveLoss;
use abstract_game::Score;
use abstract_game::Solver;

/// Solves Nim exhaustively with the score algebra, ignoring the depth
/// budget: small piles make a full search cheap.
struct PerfectNimSolver;

fn solve(nim: &Nim) -> (Score, Option<u32>) {
    if nim.finished().is_finished() {
        // The player to move has already lost: the previous player took
        // the last stick.
        return (Score::lose(1), None);
    }
    let mut best: Option<(Score, u32)> = None;
    for m in nim.each_move() {
        let (child_score, _) = solve(&nim.with_move(m));
        let score = child_score.backstep();
        best = match best {
            None => Some((score, m)),
            Some((best_score, best_move)) => {
                if score.better(best_score) {
                    Some((score, m))
                } else {
                    Some((best_score, best_move))
                }
            }
        };
    }
    let (score, m) = best.unwrap();
    (score, Some(m))
}

impl Solver for PerfectNimSolver {
    type Game = Nim;

    fn best_move(&mut self, game: &Nim, _depth: u32) -> (Score, Option<u32>) {
        solve(game)
    }
}

impl CompleteSolver for PerfectNimSolver {}

#[test]
fn test_best_move() {
    let mut solver = PerfectNimSolver;
    // From four sticks the mover takes one, leaving a losing pile of three.
    let (score, m) = solver.best_move(&Nim::new(4), 10);
    assert_eq!(score, Score::optimal_win(4));
    assert_eq!(m, Some(1));

    // A pile of three is lost for the mover.
    let (score, m) = solver.best_move(&Nim::new(3), 10);
    assert_eq!(score, Score::optimal_lose(3));
    assert!(m.is_some());

    // A finished game has no move.
    let (_, m) = solver.best_move(&Nim::new(0), 10);
    assert_eq!(m, None);
}

#[test]
fn test_move_loss() {
    let mut solver = PerfectNimSolver;
    // Taking one stick from four is the optimal move.
    assert!(matches!(
        solver.move_loss(1, &Nim::new(4), 10),
        MoveLoss::Equivalent
    ));
    // Taking two sticks from four hands the win to the opponent.
    assert!(matches!(solver.move_loss(2, &Nim::new(4), 10), MoveLoss::Worse));
}

#[test]
fn test_playout() {
    let mut solver = PerfectNimSolver;
    let game = Nim::new(4);
    let playout = solver.playout(&game, 10, 100);
    // The playout plays the game to its end.
    let (last, _) = playout.last().unwrap();
    assert!(last.finished().is_finished());
    // Four sticks cannot take more than four moves.
    assert!(playout.len() <= 4);
    // With both sides playing perfectly from four sticks, the first
    // player wins.
    assert_eq!(last.finished(), GameResult::Win(GamePlayer::Player1));

    // An empty cap yields an empty playout.
    assert_eq!(solver.playout(&game, 10, 0).len(), 0);

    // A finished game yields an empty playout.
    assert_eq!(solver.playout(&Nim::new(0), 10, 100).len(), 0);
}

#[test]
fn test_best_move_determined() {
    let mut solver = PerfectNimSolver;
    let result = solver.best_move_determined(&Nim::new(4), 10);
    let (determined, m) = result.unwrap();
    assert_eq!(determined, DeterminedScore::win(4));
    assert_eq!(m, Some(1));

    let result = solver.best_move_determined(&Nim::new(3), 10);
    let (determined, _) = result.unwrap();
    assert_eq!(determined, DeterminedScore::lose(3));
}

#[test]
fn test_bot_player() {
    let mut bot = BotPlayer::new("bot".to_owned(), PerfectNimSolver, 10);
    assert_eq!(bot.display_name(), "bot");

    match bot.make_move(&Nim::new(4)) {
        Ok(MakeMoveControl::Done(m)) => assert_eq!(m, 1),
        _ => panic!("expected a move"),
    }

    // A finished game gives the bot no move to make.
    assert!(matches!(
        bot.make_move(&Nim::new(0)),
        Err(GameInterfaceError::InternalError(_))
    ));
}
