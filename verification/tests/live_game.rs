use annotator::{
    AnnotatedGame, AnnotatedGameAction, Color, Date, Move, Outcome, Position,
};

fn day() -> Date {
    Date { year: 2024, month: 5, day: 31 }
}

fn pick(game: &AnnotatedGame, notation: &str) -> Move {
    let position = game.last_game_position();
    let found: Vec<Move> = game
        .legal_moves()
        .into_iter()
        .filter(|m| position.notation(*m) == notation)
        .collect();
    assert_eq!(found.len(), 1, "{notation} names one legal move");
    found[0]
}

fn play(game: AnnotatedGame, notations: &[&str]) -> AnnotatedGame {
    let mut game = game;
    for notation in notations {
        let m = pick(&game, notation);
        game = game.reduce(AnnotatedGameAction::PlayMove(m));
    }
    game
}

fn same(a: &AnnotatedGame, b: &AnnotatedGame) -> bool {
    let (ra, rb) = (a.pgn_game(), b.pgn_game());
    a.finished_loading() == b.finished_loading()
        && a.position_count() == b.position_count()
        && a.last_game_position().fen() == b.last_game_position().fen()
        && ra.white == rb.white
        && ra.black == rb.black
        && ra.date == rb.date
        && ra.event == rb.event
        && ra.site == rb.site
        && ra.round == rb.round
        && ra.moves == rb.moves
        && ra.outcome == rb.outcome
}

#[test]
fn new_game_has_one_position_and_no_moves() {
    let game = AnnotatedGame::new(day());
    assert!(game.finished_loading());
    assert_eq!(game.position_count(), 1);
    assert_eq!(game.last_game_position().fen(), Position::initial().fen());
    assert_eq!(game.legal_moves().len(), 20);
    assert_eq!(game.color_turn(), Color::White);
    let record = game.pgn_game();
    assert_eq!(record.white, "");
    assert_eq!(record.black, "");
    assert_eq!(record.date, day());
    assert_eq!(record.event, None);
    assert_eq!(record.site, None);
    assert_eq!(record.round, None);
    assert!(record.moves.is_empty());
    assert_eq!(record.outcome, None);
}

#[test]
fn pawn_advance_from_the_initial_position() {
    let game = AnnotatedGame::new(day());
    assert_eq!(game.legal_moves().len(), 20);
    let e4 = pick(&game, "e4");
    let (game, concluded) = game.dispatch(AnnotatedGameAction::PlayMove(e4));
    assert!(!concluded);
    assert_eq!(game.position_count(), 2);
    assert_eq!(game.pgn_game().moves, vec!["e4".to_string()]);
    assert_eq!(game.pgn_game().outcome, None);
    assert_eq!(game.color_turn(), Color::Black);
}

#[test]
fn forced_mate_sets_the_outcome_and_concludes_once() {
    let mut game = AnnotatedGame::new(day());
    let mut signals = 0;
    for notation in ["e4", "e5", "Qh5", "Nc6", "Bc4", "Nf6", "Qxf7#"] {
        let m = pick(&game, notation);
        let (next, concluded) = game.dispatch(AnnotatedGameAction::PlayMove(m));
        if concluded {
            signals += 1;
        }
        game = next;
    }
    assert_eq!(signals, 1);
    assert_eq!(game.position_count(), 8);
    assert_eq!(game.pgn_game().moves.len(), 7);
    assert_eq!(game.pgn_game().moves[6], "Qxf7#");
    assert_eq!(
        game.pgn_game().outcome,
        Some(Outcome::Decisive { winner: Color::White })
    );
    assert!(game.legal_moves().is_empty());
    let (game, concluded) =
        game.dispatch(AnnotatedGameAction::AddOutcome(Outcome::Decisive { winner: Color::White }));
    assert!(!concluded);
    assert_eq!(
        game.pgn_game().outcome,
        Some(Outcome::Decisive { winner: Color::White })
    );
}

#[test]
fn history_is_one_longer_than_the_record_after_every_action() {
    let mut game = AnnotatedGame::new(day());
    assert_eq!(game.position_count(), game.pgn_game().moves.len() + 1);
    let e4 = pick(&game, "e4");
    let steps = vec![
        AnnotatedGameAction::TakeBack,
        AnnotatedGameAction::PlayMove(e4),
        AnnotatedGameAction::PlayMove(e4),
        AnnotatedGameAction::AddWhiteName("Anna".to_string()),
        AnnotatedGameAction::AddOutcome(Outcome::Draw),
        AnnotatedGameAction::TakeBack,
        AnnotatedGameAction::TakeBack,
        AnnotatedGameAction::FinishedLoading,
        AnnotatedGameAction::PlayMove(e4),
        AnnotatedGameAction::Reset,
        AnnotatedGameAction::ChangeDate(Date { year: 2020, month: 1, day: 2 }),
    ];
    for action in steps {
        game = game.reduce(action);
        assert!(game.position_count() >= 1);
        assert_eq!(game.position_count(), game.pgn_game().moves.len() + 1);
    }
}

#[test]
fn reset_twice_is_reset_once() {
    let game = play(AnnotatedGame::new(day()), &["d4", "d5", "c4"]);
    let game = game.reduce(AnnotatedGameAction::AddBlackName("Boris".to_string()));
    let once = game.clone().reduce_on(AnnotatedGameAction::Reset, day());
    let twice = game
        .reduce_on(AnnotatedGameAction::Reset, day())
        .reduce_on(AnnotatedGameAction::Reset, day());
    assert!(same(&once, &twice));
    assert_eq!(once.position_count(), 1);
    assert_eq!(once.pgn_game().black, "");
    assert_eq!(once.pgn_game().date, day());
    assert!(once.pgn_game().moves.is_empty());
}

#[test]
fn reset_keeps_whether_the_game_was_loaded() {
    let game = AnnotatedGame::new(day()).reduce(AnnotatedGameAction::FinishedLoading);
    assert!(game.finished_loading());
    let game = game.reduce(AnnotatedGameAction::Reset);
    assert!(game.finished_loading());
    let today = Date::today();
    assert!(game.pgn_game().date.year <= today.year);
    assert!((1..=12).contains(&game.pgn_game().date.month));
    assert!((1..=31).contains(&game.pgn_game().date.day));
}

#[test]
fn take_back_at_history_length_one_changes_nothing() {
    let game = AnnotatedGame::new(day())
        .reduce(AnnotatedGameAction::AddWhiteName("Anna".to_string()))
        .reduce(AnnotatedGameAction::AddOutcome(Outcome::Draw));
    let after = game.clone().reduce(AnnotatedGameAction::TakeBack);
    assert!(same(&game, &after));
    assert_eq!(after.position_count(), 1);
    assert_eq!(after.pgn_game().outcome, Some(Outcome::Draw));
}

#[test]
fn take_back_removes_one_position_and_one_move() {
    let game = play(AnnotatedGame::new(day()), &["e4", "c5", "Nf3"]);
    let before = game.last_game_position();
    let game = game.reduce(AnnotatedGameAction::TakeBack);
    assert_eq!(game.position_count(), 3);
    assert_eq!(game.pgn_game().moves, vec!["e4".to_string(), "c5".to_string()]);
    assert_ne!(game.last_game_position().fen(), before.fen());
    assert_eq!(game.color_turn(), Color::White);
    let game = play(game, &["Nf3"]);
    assert_eq!(game.last_game_position().fen(), before.fen());
}

#[test]
fn take_back_clears_the_outcome() {
    let game = play(AnnotatedGame::new(day()), &["f3", "e5", "g4", "Qh4#"]);
    assert_eq!(
        game.pgn_game().outcome,
        Some(Outcome::Decisive { winner: Color::Black })
    );
    let (game, concluded) = game.dispatch(AnnotatedGameAction::TakeBack);
    assert!(!concluded);
    assert_eq!(game.pgn_game().outcome, None);
    assert_eq!(game.position_count(), 4);
    let mate = pick(&game, "Qh4#");
    let (game, concluded) = game.dispatch(AnnotatedGameAction::PlayMove(mate));
    assert!(concluded);
    assert_eq!(
        game.pgn_game().outcome,
        Some(Outcome::Decisive { winner: Color::Black })
    );
}

#[test]
fn illegal_move_is_ignored() {
    let start = AnnotatedGame::new(day());
    let e4 = pick(&start, "e4");
    let game = start.reduce(AnnotatedGameAction::PlayMove(e4));
    let after = game.clone().reduce(AnnotatedGameAction::PlayMove(e4));
    assert!(same(&game, &after));
    let made_up = Move { role: 9, from: Some(70), to: 200, promotion: Some(0) };
    let after = game.clone().reduce(AnnotatedGameAction::PlayMove(made_up));
    assert!(same(&game, &after));
    let drop = Move { role: 5, from: None, to: 30, promotion: None };
    let after = game.clone().reduce(AnnotatedGameAction::PlayMove(drop));
    assert!(same(&game, &after));
}

#[test]
fn add_outcome_overwrites_and_concludes_only_from_an_open_game() {
    let game = play(AnnotatedGame::new(day()), &["e4", "e5"]);
    let (game, concluded) = game.dispatch(AnnotatedGameAction::AddOutcome(Outcome::Draw));
    assert!(concluded);
    assert_eq!(game.pgn_game().outcome, Some(Outcome::Draw));
    let resign = Outcome::Decisive { winner: Color::Black };
    let (game, concluded) = game.dispatch(AnnotatedGameAction::AddOutcome(resign));
    assert!(!concluded);
    assert_eq!(game.pgn_game().outcome, Some(resign));
    assert_eq!(game.position_count(), 3);
}

#[test]
fn stalemate_is_a_draw() {
    let game = play(
        AnnotatedGame::new(day()),
        &[
            "e3", "a5", "Qh5", "Ra6", "Qxa5", "h5", "h4", "Rah6", "Qxc7", "f6", "Qxd7+", "Kf7",
            "Qxb7", "Qd3", "Qxb8", "Qh7", "Qxc8", "Kg6", "Qe6",
        ],
    );
    assert!(game.legal_moves().is_empty());
    assert_eq!(game.pgn_game().outcome, Some(Outcome::Draw));
    assert_eq!(game.position_count(), 20);
}

#[test]
fn metadata_actions_touch_only_their_field() {
    let game = play(AnnotatedGame::new(day()), &["e4"]);
    let fen = game.last_game_position().fen().to_string();
    let game = game
        .reduce(AnnotatedGameAction::AddWhiteName("Carlsen, Magnus".to_string()))
        .reduce(AnnotatedGameAction::AddBlackName("Nakamura, Hikaru".to_string()))
        .reduce(AnnotatedGameAction::ChangeDate(Date { year: 2023, month: 10, day: 15 }))
        .reduce(AnnotatedGameAction::UpdateEventDetails {
            event: "FIDE World Championship".to_string(),
            site: "New York, NY USA".to_string(),
            round: "5.2".to_string(),
        });
    let record = game.pgn_game();
    assert_eq!(record.white, "Carlsen, Magnus");
    assert_eq!(record.black, "Nakamura, Hikaru");
    assert_eq!(record.date, Date { year: 2023, month: 10, day: 15 });
    assert_eq!(record.event.as_deref(), Some("FIDE World Championship"));
    assert_eq!(record.site.as_deref(), Some("New York, NY USA"));
    assert_eq!(record.round.as_deref(), Some("5.2"));
    assert_eq!(record.moves, vec!["e4".to_string()]);
    assert_eq!(record.outcome, None);
    assert_eq!(game.position_count(), 2);
    assert_eq!(game.last_game_position().fen(), fen);
}

#[test]
fn a_reset_dates_the_record_with_a_day_of_the_calendar() {
    let game = play(AnnotatedGame::new(Date { year: 1999, month: 12, day: 31 }), &["e4"]);
    let (game, concluded) = game.dispatch(AnnotatedGameAction::Reset);
    assert!(!concluded);
    let date = game.pgn_game().date;
    assert!((1..=12).contains(&date.month));
    assert!((1..=31).contains(&date.day));
    assert_eq!(game.position_count(), 1);
}
