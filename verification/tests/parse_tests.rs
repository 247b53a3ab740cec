use abstract_game::human_players::nim_player::NimPlayer;
use abstract_game::human_players::parse_decimal_u32;
use abstract_game::interactive::human_player::HumanPlayer;
use abstract_game::test_games::Nim;
use abstract_game::GameInterfaceError;

#[test]
fn test_parse_decimal_u32() {
    assert_eq!(parse_decimal_u32("0"), Some(0));
    assert_eq!(parse_decimal_u32("1"), Some(1));
    assert_eq!(parse_decimal_u32("42"), Some(42));
    assert_eq!(parse_decimal_u32("007"), Some(7));
    assert_eq!(parse_decimal_u32("+15"), Some(15));
    assert_eq!(parse_decimal_u32("4294967295"), Some(u32::MAX));

    assert_eq!(parse_decimal_u32("4294967296"), None);
    assert_eq!(parse_decimal_u32("99999999999999999999"), None);
    assert_eq!(parse_decimal_u32(""), None);
    assert_eq!(parse_decimal_u32("+"), None);
    assert_eq!(parse_decimal_u32("-1"), None);
    assert_eq!(parse_decimal_u32("12a"), None);
    assert_eq!(parse_decimal_u32("a12"), None);
    assert_eq!(parse_decimal_u32(" 3"), None);
    assert_eq!(parse_decimal_u32("1 "), None);
}

#[test]
fn test_nim_prompt() {
    let prompt = NimPlayer.prompt_move_text(&Nim::new(1));
    assert_eq!(
        prompt,
        "How many sticks would you like to take? 1 is the only option"
    );
    let prompt = NimPlayer.prompt_move_text(&Nim::new(7));
    assert_eq!(prompt, "How many sticks would you like to take? 1 or 2");
}

#[test]
fn test_nim_parse_move() {
    let nim = Nim::new(5);
    assert!(matches!(NimPlayer.parse_move("1", &nim), Ok(1)));
    assert!(matches!(NimPlayer.parse_move("2", &nim), Ok(2)));
    assert!(matches!(NimPlayer.parse_move("+2", &nim), Ok(2)));

    assert!(matches!(
        NimPlayer.parse_move("0", &nim),
        Err(GameInterfaceError::MalformedMove(_))
    ));
    assert!(matches!(
        NimPlayer.parse_move("3", &nim),
        Err(GameInterfaceError::MalformedMove(_))
    ));
    assert!(matches!(
        NimPlayer.parse_move("two", &nim),
        Err(GameInterfaceError::MalformedMove(_))
    ));

    // With a single stick left, two is no longer an option.
    let nim = Nim::new(1);
    assert!(matches!(NimPlayer.parse_move("1", &nim), Ok(1)));
    assert!(matches!(
        NimPlayer.parse_move("2", &nim),
        Err(GameInterfaceError::MalformedMove(_))
    ));
}

#[test]
fn test_nim_parse_move_messages() {
    let nim = Nim::new(5);
    match NimPlayer.parse_move("two", &nim) {
        Err(GameInterfaceError::MalformedMove(msg)) => {
            assert_eq!(msg, "two is not a number");
        }
        _ => panic!("expected a malformed-move error"),
    }
    match NimPlayer.parse_move("9", &nim) {
        Err(GameInterfaceError::MalformedMove(msg)) => {
            assert_eq!(
                msg,
                "9 is more than can be taken from the sticks remaining"
            );
        }
        _ => panic!("expected a malformed-move error"),
    }
}
