use abstract_game::determined_score::DeterminedScore;
use abstract_game::Score;

#[test]
fn test_truncated() {
    assert_eq!(
        DeterminedScore::guaranteed_tie().truncated(10),
        DeterminedScore::tie(10)
    );
    assert_eq!(DeterminedScore::tie(20).truncated(10), DeterminedScore::tie(10));
    assert_eq!(DeterminedScore::tie(5).truncated(10), DeterminedScore::tie(5));

    assert_eq!(DeterminedScore::win(20).truncated(10), DeterminedScore::tie(10));
    assert_eq!(DeterminedScore::win(10).truncated(10), DeterminedScore::win(10));
    assert_eq!(DeterminedScore::win(5).truncated(10), DeterminedScore::win(5));

    assert_eq!(DeterminedScore::lose(20).truncated(10), DeterminedScore::tie(10));
    assert_eq!(DeterminedScore::lose(10).truncated(10), DeterminedScore::lose(10));
    assert_eq!(DeterminedScore::lose(5).truncated(10), DeterminedScore::lose(5));
}

#[test]
fn test_from_score() {
    assert_eq!(
        DeterminedScore::from_score(Score::guaranteed_tie()),
        Some(DeterminedScore::guaranteed_tie())
    );
    assert_eq!(
        DeterminedScore::from_score(Score::tie(4)),
        Some(DeterminedScore::tie(4))
    );

    assert_eq!(DeterminedScore::from_score(Score::no_info()), None);

    assert_eq!(
        DeterminedScore::from_score(Score::optimal_win(4)),
        Some(DeterminedScore::win(4))
    );
    assert_eq!(DeterminedScore::from_score(Score::win(5)), None);

    assert_eq!(
        DeterminedScore::from_score(Score::optimal_lose(8)),
        Some(DeterminedScore::lose(8))
    );
    assert_eq!(DeterminedScore::from_score(Score::lose(6)), None);
}
