use annotator::{Color, Date, GameRecord, Outcome};

fn sample() -> GameRecord {
    let mut record = GameRecord::new(Date { year: 2023, month: 10, day: 15 })
        .add_site("New York, NY USA".to_string())
        .add_white_name("Carlsen, Magnus".to_string())
        .add_black_name("Nakamura, Hikaru".to_string())
        .add_event("FIDE World Championship".to_string())
        .add_round("5.2".to_string());
    for notation in ["e4", "e5", "Nf3", "Nc6", "Bb5"] {
        record = record.new_move(notation.to_string());
    }
    record
}

#[test]
fn movetext_needs_a_result() {
    assert_eq!(sample().to_pgn(), None);
}

#[test]
fn movetext_has_seven_tags_then_the_moves() {
    let record = sample().add_result(Outcome::Decisive { winner: Color::White });
    let expected = "[Event \"FIDE World Championship\"]\n\
[Site \"New York, NY USA\"]\n\
[Round \"5.2\"]\n\
[Date \"2023.10.15\"]\n\
[White \"Carlsen, Magnus\"]\n\
[Black \"Nakamura, Hikaru\"]\n\
[Result \"1-0\"]\n\
\n\
1. e4 e5 2. Nf3 Nc6 3. Bb5 1-0\n";
    assert_eq!(record.to_pgn().as_deref(), Some(expected));
}

#[test]
fn movetext_of_a_casual_game_uses_the_default_tags() {
    let record = GameRecord::new(Date { year: 2024, month: 1, day: 2 })
        .new_move("d4".to_string())
        .new_move("d5".to_string())
        .add_result(Outcome::Draw);
    let expected = "[Event \"Casual Game\"]\n\
[Site \"?\"]\n\
[Round \"-\"]\n\
[Date \"2024.01.02\"]\n\
[White \"\"]\n\
[Black \"\"]\n\
[Result \"1/2-1/2\"]\n\
\n\
1. d4 d5 1/2-1/2\n";
    assert_eq!(record.to_pgn().as_deref(), Some(expected));
}

#[test]
fn movetext_is_refused_for_a_move_that_is_no_notation() {
    let record = GameRecord::new(Date { year: 2024, month: 1, day: 2 })
        .new_move("hello".to_string())
        .add_result(Outcome::Draw);
    assert_eq!(record.to_pgn(), None);
    let record = GameRecord::new(Date { year: 2024, month: 2, day: 30 })
        .new_move("e4".to_string())
        .add_result(Outcome::Decisive { winner: Color::Black });
    assert_eq!(record.to_pgn(), None);
}

#[test]
fn black_win_is_written_zero_one() {
    let record = GameRecord::new(Date { year: 2024, month: 1, day: 2 })
        .new_move("f3".to_string())
        .add_result(Outcome::Decisive { winner: Color::Black });
    let text = record.to_pgn().unwrap();
    assert!(text.contains("[Result \"0-1\"]\n"));
    assert!(text.ends_with("1. f3 0-1\n"));
}

#[test]
fn take_back_pops_the_last_move_or_nothing() {
    let mut record = sample();
    assert_eq!(record.take_back().as_deref(), Some("Bb5"));
    assert_eq!(record.moves.len(), 4);
    let mut empty = GameRecord::new(Date { year: 2024, month: 1, day: 2 });
    assert_eq!(empty.take_back(), None);
    assert!(empty.moves.is_empty());
}

#[test]
fn clear_result_and_clone() {
    let record = sample().add_result(Outcome::Draw);
    let copy = record.clone();
    assert_eq!(copy.moves, record.moves);
    assert_eq!(copy.white, record.white);
    assert_eq!(copy.outcome, Some(Outcome::Draw));
    assert_eq!(record.clear_result().outcome, None);
}

#[test]
fn dates_are_read_as_year_month_day() {
    assert_eq!(Date::parse("2024-05-31"), Some(Date { year: 2024, month: 5, day: 31 }));
    assert_eq!(Date::parse("2024-02-29"), Some(Date { year: 2024, month: 2, day: 29 }));
    assert_eq!(Date::parse("2023-02-29"), None);
    assert_eq!(Date::parse("31.05.2024"), None);
    assert_eq!(Date::parse(""), None);
}

#[test]
fn turns_pair_the_moves_and_number_them() {
    let record = sample();
    let turns = record.turns();
    assert_eq!(turns.len(), 3);
    assert_eq!((turns[0].number, turns[0].white.as_str(), turns[0].black.as_deref()), (1, "e4", Some("e5")));
    assert_eq!((turns[1].number, turns[1].white.as_str(), turns[1].black.as_deref()), (2, "Nf3", Some("Nc6")));
    assert_eq!((turns[2].number, turns[2].white.as_str(), turns[2].black.as_deref()), (3, "Bb5", None));
    let even = GameRecord::new(Date { year: 2024, month: 1, day: 2 })
        .new_move("d4".to_string())
        .new_move("d5".to_string());
    let turns = even.turns();
    assert_eq!(turns.len(), 1);
    assert_eq!(turns[0].black.as_deref(), Some("d5"));
    assert!(GameRecord::new(Date { year: 2024, month: 1, day: 2 }).turns().is_empty());
}

#[test]
fn a_record_is_blank_until_something_is_entered() {
    let record = GameRecord::new(Date { year: 2024, month: 1, day: 2 });
    assert!(record.is_blank());
    assert!(!record.has_both_names());
    let named = record.add_white_name("Anna".to_string());
    assert!(!named.is_blank());
    assert!(!named.has_both_names());
    let named = named.add_black_name("Boris".to_string());
    assert!(named.has_both_names());
    let moved = GameRecord::new(Date { year: 2024, month: 1, day: 2 }).new_move("e4".to_string());
    assert!(!moved.is_blank());
}
