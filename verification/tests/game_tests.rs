use abstract_game::test_games::Nim;
use abstract_game::Game;
use abstract_game::GameMoveIterator;
use abstract_game::GamePlayer;
use abstract_game::GameResult;

#[test]
fn test_game_player() {
    assert!(GamePlayer::Player1.is_p1());
    assert!(!GamePlayer::Player1.is_p2());
    assert!(GamePlayer::Player2.is_p2());
    assert!(!GamePlayer::Player2.is_p1());
    assert_eq!(GamePlayer::Player1.opposite(), GamePlayer::Player2);
    assert_eq!(GamePlayer::Player2.opposite(), GamePlayer::Player1);
}

#[test]
fn test_game_result() {
    assert!(!GameResult::NotFinished.is_finished());
    assert!(GameResult::Win(GamePlayer::Player1).is_finished());
    assert!(GameResult::Win(GamePlayer::Player2).is_finished());
    assert!(GameResult::Tie.is_finished());
}

#[test]
fn test_nim_moves() {
    assert_eq!(Nim::new(5).each_move(), vec![1, 2]);
    assert_eq!(Nim::new(2).each_move(), vec![1, 2]);
    assert_eq!(Nim::new(1).each_move(), vec![1]);
    assert_eq!(Nim::new(0).each_move(), vec![]);
}

#[test]
fn test_nim_move_generator_restartable() {
    // Two generators over the same position yield independent sequences.
    let nim = Nim::new(5);
    let mut g1 = nim.move_generator();
    let mut g2 = nim.move_generator();
    assert_eq!(g1.next(&nim), Some(1));
    assert_eq!(g1.next(&nim), Some(2));
    assert_eq!(g1.next(&nim), None);
    assert_eq!(g2.next(&nim), Some(1));
    assert_eq!(g2.next(&nim), Some(2));
    assert_eq!(g2.next(&nim), None);
}

#[test]
fn test_nim_to_iter() {
    let nim = Nim::new(5);
    let mut it = nim.move_generator().to_iter(&nim);
    assert_eq!(it.next(), Some(1));
    assert_eq!(it.next(), Some(2));
    assert_eq!(it.next(), None);
}

#[test]
fn test_nim_play() {
    let mut nim = Nim::new(5);
    assert_eq!(nim.sticks(), 5);
    assert_eq!(nim.current_player(), GamePlayer::Player1);
    assert_eq!(nim.finished(), GameResult::NotFinished);

    nim.make_move(2);
    assert_eq!(nim.sticks(), 3);
    assert_eq!(nim.current_player(), GamePlayer::Player2);
    assert_eq!(nim.finished(), GameResult::NotFinished);

    let branched = nim.with_move(1);
    assert_eq!(branched.sticks(), 2);
    assert_eq!(nim.sticks(), 3, "with_move must not touch the original");

    nim.make_move(2);
    nim.make_move(1);
    assert_eq!(nim.sticks(), 0);
    // Player one moved first, third and last, took the final stick, and
    // so wins.
    assert_eq!(nim.finished(), GameResult::Win(GamePlayer::Player1));
}

#[test]
fn test_nim_search_immediate_win() {
    assert_eq!(Nim::new(1).search_immediate_win(), Some(1));
    assert_eq!(Nim::new(2).search_immediate_win(), Some(2));
    assert_eq!(Nim::new(3).search_immediate_win(), None);
    assert_eq!(Nim::new(0).search_immediate_win(), None);
}
