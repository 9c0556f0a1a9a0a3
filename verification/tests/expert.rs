use annotator::{AnnotatedGame, AnnotatedGameAction, Date, ExpertResolver, Move, Position, Role};

fn day() -> Date {
    Date { year: 2024, month: 5, day: 31 }
}

fn find(position: &Position, notation: &str) -> Move {
    let found: Vec<Move> = position
        .legal_moves()
        .into_iter()
        .filter(|m| position.notation(*m) == notation)
        .collect();
    assert_eq!(found.len(), 1, "{notation} names one legal move");
    found[0]
}

fn after(notations: &[&str]) -> AnnotatedGame {
    let mut game = AnnotatedGame::new(day());
    for notation in notations {
        let m = find(&game.last_game_position(), notation);
        game = game.reduce(AnnotatedGameAction::PlayMove(m));
    }
    game
}

fn notations(position: &Position, moves: &[Move]) -> Vec<String> {
    moves.iter().map(|m| position.notation(*m)).collect()
}

#[test]
fn empty_input_offers_every_legal_move() {
    let start = Position::initial();
    let resolver = ExpertResolver::new(&start);
    assert_eq!(resolver.input(), "");
    assert_eq!(resolver.candidates(), &start.legal_moves());
    assert_eq!(resolver.candidates().len(), 20);
    assert_eq!(resolver.ready(), None);
    let resolver = ExpertResolver::set_input(&start, String::new());
    assert_eq!(resolver.candidates(), &start.legal_moves());
}

#[test]
fn full_notation_leaves_one_candidate_ready() {
    let start = Position::initial();
    for m in start.legal_moves() {
        let text = start.notation(m);
        let resolver = ExpertResolver::set_input(&start, text.clone());
        let others = start
            .legal_moves()
            .into_iter()
            .filter(|o| *o != m && start.notation(*o).starts_with(&text))
            .count();
        if others == 0 {
            assert_eq!(resolver.candidates(), &vec![m]);
            assert_eq!(resolver.ready(), Some(m));
        } else {
            assert_eq!(resolver.candidates().len(), others + 1);
            assert_eq!(resolver.ready(), None);
        }
    }
    let nf3 = find(&start, "Nf3");
    let resolver = ExpertResolver::set_input(&start, "Nf3".to_string());
    assert_eq!(resolver.candidates(), &vec![nf3]);
    assert_eq!(resolver.ready(), Some(nf3));
}

#[test]
fn a_notation_that_begins_another_is_not_ready() {
    let game = after(&[
        "e4", "e5", "Nf3", "Nc6", "Bc4", "Bc5", "d3", "d6", "Be3", "Be6", "Nc3", "Nf6", "Qd2",
        "Qd7",
    ]);
    let position = game.last_game_position();
    let short = find(&position, "O-O");
    let long = find(&position, "O-O-O");
    let resolver = ExpertResolver::set_input(&position, "O-O".to_string());
    assert_eq!(resolver.candidates().len(), 2);
    assert!(resolver.candidates().contains(&short));
    assert!(resolver.candidates().contains(&long));
    assert_eq!(resolver.ready(), None);
    let resolver = ExpertResolver::set_input(&position, "O-O-O".to_string());
    assert_eq!(resolver.candidates(), &vec![long]);
    assert_eq!(resolver.ready(), Some(long));
}

#[test]
fn two_knights_sharing_a_prefix_need_every_character() {
    // White knights on b3 and f3 can both go to d2 and to d4.
    let game = after(&["Nf3", "d5", "d3", "e6", "Nbd2", "Nf6", "Nb3", "Be7"]);
    let position = game.last_game_position();
    let target = find(&position, "Nbd4");
    let other = find(&position, "Nfd4");
    assert_eq!(target.role(), Some(Role::Knight));
    assert_eq!(target.to, other.to);
    let mut resolver = ExpertResolver::new(&position);
    let text: Vec<char> = "Nbd4".chars().collect();
    for (i, c) in text.iter().enumerate() {
        resolver = resolver.type_char(&position, *c);
        assert_eq!(resolver.input(), "Nbd4"[..=i].to_string());
        if i + 1 < text.len() {
            assert!(resolver.candidates().len() > 1, "after {}", resolver.input());
            assert_eq!(resolver.ready(), None);
        }
    }
    assert_eq!(resolver.candidates().len(), 1);
    assert_eq!(resolver.candidates(), &vec![target]);
    assert_eq!(resolver.ready(), Some(target));
    let after_nbd = ExpertResolver::set_input(&position, "Nbd".to_string());
    let mut names = notations(&position, after_nbd.candidates());
    names.sort();
    assert_eq!(names, vec!["Nbd2".to_string(), "Nbd4".to_string()]);
    let after_n = ExpertResolver::set_input(&position, "N".to_string());
    let names = notations(&position, after_n.candidates());
    for name in ["Nbd2", "Nfd2", "Nbd4", "Nfd4"] {
        assert!(names.contains(&name.to_string()));
    }
    assert!(names.iter().all(|n| n.starts_with('N')));
}

#[test]
fn shortening_the_input_brings_candidates_back() {
    let start = Position::initial();
    let all = ExpertResolver::new(&start);
    let typed = all.type_char(&start, 'N').type_char(&start, 'f');
    assert_eq!(typed.input(), "Nf");
    assert_eq!(notations(&start, typed.candidates()), vec!["Nf3".to_string()]);
    let shorter = ExpertResolver::set_input(&start, "N".to_string());
    assert_eq!(shorter.candidates().len(), 4);
    assert!(typed.candidates().iter().all(|m| shorter.candidates().contains(m)));
    let nothing = ExpertResolver::set_input(&start, String::new());
    assert_eq!(nothing.candidates().len(), 20);
    assert!(shorter.candidates().iter().all(|m| nothing.candidates().contains(m)));
    let cancelled = typed.cancel(&start);
    assert_eq!(cancelled.input(), "");
    assert_eq!(cancelled.candidates(), &start.legal_moves());
}

#[test]
fn a_character_is_typed_only_if_some_notation_holds_it() {
    let start = Position::initial();
    let resolver = ExpertResolver::new(&start);
    let resolver = resolver.type_char(&start, 'x');
    assert_eq!(resolver.input(), "");
    assert_eq!(resolver.candidates().len(), 20);
    let resolver = resolver.type_char(&start, 'Q');
    assert_eq!(resolver.input(), "");
    // '3' occurs in "e3" and "Nf3", though no notation begins with it.
    let resolver = resolver.type_char(&start, '3');
    assert_eq!(resolver.input(), "3");
    assert!(resolver.candidates().is_empty());
    assert_eq!(resolver.ready(), None);
    // Every legal move counts here, not only the candidates that are left.
    let resolver = resolver.type_char(&start, 'e');
    assert_eq!(resolver.input(), "3e");
    assert!(resolver.candidates().is_empty());
}

#[test]
fn commit_plays_the_ready_move_and_clears_the_input() {
    let game = AnnotatedGame::new(day());
    let start = game.last_game_position();
    let resolver = ExpertResolver::set_input(&start, "e4".to_string());
    assert_eq!(resolver.ready(), Some(find(&start, "e4")));
    let (resolver, game) = resolver.commit(game);
    assert_eq!(game.position_count(), 2);
    assert_eq!(game.pgn_game().moves, vec!["e4".to_string()]);
    assert_eq!(resolver.input(), "");
    assert_eq!(resolver.ready(), None);
    assert_eq!(resolver.candidates(), &game.legal_moves());
}

#[test]
fn commit_without_a_ready_move_only_clears_the_input() {
    let game = AnnotatedGame::new(day());
    let start = game.last_game_position();
    let resolver = ExpertResolver::set_input(&start, "N".to_string());
    assert_eq!(resolver.ready(), None);
    let (resolver, game) = resolver.commit(game);
    assert_eq!(game.position_count(), 1);
    assert!(game.pgn_game().moves.is_empty());
    assert_eq!(resolver.input(), "");
    assert_eq!(resolver.candidates().len(), 20);
}

#[test]
fn a_stale_ready_move_is_never_committed() {
    // "Nf6" is ready for Black after 1. e4; then the move is taken back.
    let game = after(&["e4"]);
    let position = game.last_game_position();
    let resolver = ExpertResolver::set_input(&position, "Nf6".to_string());
    assert!(resolver.ready().is_some());
    let game = game.reduce(AnnotatedGameAction::TakeBack);
    let (resolver, game) = resolver.commit(game);
    assert_eq!(game.position_count(), 1);
    assert!(game.pgn_game().moves.is_empty());
    assert_eq!(resolver.input(), "");
    // Refreshing shows the same thing before a commit.
    let game = after(&["e4"]);
    let resolver = ExpertResolver::set_input(&game.last_game_position(), "Nf6".to_string());
    let game = game.reduce(AnnotatedGameAction::TakeBack);
    let resolver = resolver.refresh(&game.last_game_position());
    assert_eq!(resolver.input(), "Nf6");
    assert!(resolver.candidates().is_empty());
    assert_eq!(resolver.ready(), None);
}

#[test]
fn candidates_are_listed_on_one_line() {
    let start = Position::initial();
    let knights = ExpertResolver::set_input(&start, "N".to_string());
    assert_eq!(
        annotator::expert::candidates_text(&start, knights.candidates()),
        ": Na3, Nc3, Nf3, Nh3"
    );
    let one = ExpertResolver::set_input(&start, "Nf".to_string());
    assert_eq!(annotator::expert::candidates_text(&start, one.candidates()), ": Nf3");
    let none = ExpertResolver::set_input(&start, "Q".to_string());
    assert_eq!(annotator::expert::candidates_text(&start, none.candidates()), "");
}

#[test]
fn a_stale_ready_move_is_dropped_even_if_the_text_names_another_move() {
    // White has "e4" ready: the pawn from e2. Then Black's last move is
    // taken back, and in the position that is current now the same text
    // names a move of Black, the pawn from e5.
    let game = after(&["d3", "e5", "Nf3", "Nf6"]);
    let position = game.last_game_position();
    let resolver = ExpertResolver::set_input(&position, "e4".to_string());
    let held = resolver.ready().expect("e4 is ready for White");
    assert_eq!(held.from, Some(12));
    let game = game.reduce(AnnotatedGameAction::TakeBack);
    let now = game.last_game_position();
    let black = find(&now, "e4");
    assert_eq!(black.from, Some(36));
    assert!(!now.is_legal(held));
    let fen = now.fen().to_string();
    let moves = game.pgn_game().moves.clone();
    let (resolver, game) = resolver.commit(game);
    assert_eq!(game.position_count(), 4);
    assert_eq!(game.last_game_position().fen(), fen);
    assert_eq!(game.pgn_game().moves, moves);
    assert_eq!(game.pgn_game().outcome, None);
    assert_eq!(resolver.input(), "");
    assert_eq!(resolver.candidates(), &game.legal_moves());
    // After a refresh the text resolves in the current position, and the
    // user sees the move of Black as ready before it can be committed.
    let refreshed = ExpertResolver::set_input(&position, "e4".to_string()).refresh(&now);
    assert_eq!(refreshed.ready(), Some(black));
    let (_, game) = refreshed.commit(game);
    assert_eq!(game.position_count(), 5);
    assert_eq!(game.pgn_game().moves.last().map(String::as_str), Some("e4"));
}
