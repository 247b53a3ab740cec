use abstract_game::human_players::nim_player::NimPlayer;
use abstract_game::interactive::human_term_player::HumanTermPlayer;
use abstract_game::interactive::input_reader::InputReader;
use abstract_game::interactive::player::MakeMoveControl;
use abstract_game::interactive::player::Player;
use abstract_game::test_games::Nim;
use abstract_game::GameInterfaceError;
use abstract_game::GameInterfaceResult;

/// Hands out a fixed script of input lines, then reports the user as
/// quitting.
struct ScriptedInput {
    lines: Vec<&'static str>,
    next: usize,
}

impl ScriptedInput {
    fn new(lines: Vec<&'static str>) -> Self {
        ScriptedInput { lines, next: 0 }
    }
}

impl InputReader for ScriptedInput {
    type Output = String;

    fn next_input(&mut self) -> GameInterfaceResult<String> {
        if self.next < self.lines.len() {
            self.next += 1;
            Ok(self.lines[self.next - 1].to_owned())
        } else {
            Err(GameInterfaceError::Quit)
        }
    }
}

/// Always fails to read, the way a broken terminal would.
struct BrokenInput;

impl InputReader for BrokenInput {
    type Output = String;

    fn next_input(&mut self) -> GameInterfaceResult<String> {
        Err(GameInterfaceError::IoError("the input source is closed".to_owned()))
    }
}

#[test]
fn test_human_term_player_io_error() {
    let mut player = HumanTermPlayer::new("bob".to_owned(), NimPlayer, BrokenInput);
    assert!(matches!(
        player.make_move(&Nim::new(5)),
        Err(GameInterfaceError::IoError(_))
    ));
}

#[test]
fn test_human_term_player() {
    let mut player = HumanTermPlayer::new(
        "alice".to_owned(),
        NimPlayer,
        ScriptedInput::new(vec!["2", "17", "1", "nope"]),
    );
    assert_eq!(player.display_name(), "alice");

    let nim = Nim::new(5);
    let prompt = player.prompt_move_text(&nim).unwrap();
    assert_eq!(prompt, "How many sticks would you like to take? 1 or 2");

    // "2" parses and is legal.
    assert!(matches!(
        player.make_move(&nim),
        Ok(MakeMoveControl::Done(2))
    ));
    // "17" is more sticks than may be taken.
    assert!(matches!(
        player.make_move(&nim),
        Err(GameInterfaceError::MalformedMove(_))
    ));
    // "1" parses and is legal.
    assert!(matches!(
        player.make_move(&nim),
        Ok(MakeMoveControl::Done(1))
    ));
    // "nope" is not a number.
    assert!(matches!(
        player.make_move(&nim),
        Err(GameInterfaceError::MalformedMove(_))
    ));
    // The script is exhausted: the reader reports a quit.
    assert!(matches!(player.make_move(&nim), Err(GameInterfaceError::Quit)));
}
