use annotator::{
    AnnotatedGame, AnnotatedGameAction, Date, ExpertResolver, Move, Position, Role,
    RookieResolver, Square, Stage,
};

fn day() -> Date {
    Date { year: 2024, month: 5, day: 31 }
}

fn find(position: &Position, notation: &str) -> Move {
    let found: Vec<Move> = position
        .legal_moves()
        .into_iter()
        .filter(|m| position.notation(*m) == notation)
        .collect();
    assert_eq!(found.len(), 1, "{notation} names one legal move");
    found[0]
}

fn unchanged(a: &RookieResolver, b: &RookieResolver) -> bool {
    a.role() == b.role()
        && a.from_square() == b.from_square()
        && a.resolved_move() == b.resolved_move()
}

const G1: Square = Square { index: 6 };
const B1: Square = Square { index: 1 };
const E4: Square = Square { index: 28 };

#[test]
fn starts_with_nothing_chosen() {
    let resolver = RookieResolver::new();
    assert_eq!(resolver.stage(), Stage::Piece);
    assert_eq!(resolver.role(), None);
    assert_eq!(resolver.from_square(), None);
    assert_eq!(resolver.resolved_move(), None);
}

#[test]
fn a_role_without_legal_moves_is_rejected() {
    let start = Position::initial();
    for role in [Role::Bishop, Role::Rook, Role::Queen, Role::King] {
        assert!(!annotator::rookie::can_move(&start, role));
        let before = RookieResolver::new();
        let after = before.select_role(&start, role);
        assert!(unchanged(&before, &after));
        assert_eq!(after.stage(), Stage::Piece);
    }
    for role in [Role::Pawn, Role::Knight] {
        assert!(annotator::rookie::can_move(&start, role));
        let after = RookieResolver::new().select_role(&start, role);
        assert_eq!(after.stage(), Stage::Origin);
        assert_eq!(after.role(), Some(role));
    }
}

#[test]
fn origins_are_the_distinct_squares_of_the_role() {
    let start = Position::initial();
    let knights = annotator::rookie::origins(&start, Role::Knight);
    assert_eq!(knights, vec![B1, G1]);
    let pawns = annotator::rookie::origins(&start, Role::Pawn);
    let expected: Vec<Square> = (8..16).map(|index| Square { index }).collect();
    assert_eq!(pawns, expected);
    assert!(annotator::rookie::origins(&start, Role::Queen).is_empty());
}

#[test]
fn a_square_that_is_no_origin_is_ignored() {
    let start = Position::initial();
    let at_origin = RookieResolver::new().select_role(&start, Role::Knight);
    let after = at_origin.select_square(&start, E4);
    assert!(unchanged(&at_origin, &after));
    assert_eq!(after.stage(), Stage::Origin);
    let after = at_origin.select_square(&start, G1);
    assert_eq!(after.stage(), Stage::Target);
    assert_eq!(after.from_square(), Some(G1));
    assert_eq!(after.resolved_move(), None);
    // Without a role there is no square to choose.
    let first = RookieResolver::new();
    assert!(unchanged(&first, &first.select_square(&start, G1)));
}

#[test]
fn the_move_is_chosen_even_when_it_is_the_only_one() {
    let start = Position::initial();
    let resolver = RookieResolver::new()
        .select_role(&start, Role::Knight)
        .select_square(&start, G1);
    let moves = annotator::rookie::moves_of_piece(&start, Role::Knight, G1);
    assert_eq!(moves.len(), 2);
    assert_eq!(resolver.resolved_move(), None);
    let nf3 = find(&start, "Nf3");
    let nc3 = find(&start, "Nc3");
    let ignored = resolver.select_move(&start, nc3);
    assert!(unchanged(&resolver, &ignored));
    let chosen = resolver.select_move(&start, nf3);
    assert_eq!(chosen.resolved_move(), Some(nf3));
    assert_eq!(chosen.stage(), Stage::Target);
    let nh3 = find(&start, "Nh3");
    let changed = chosen.select_move(&start, nh3);
    assert_eq!(changed.resolved_move(), Some(nh3));
    // A move cannot be chosen before its square.
    let early = RookieResolver::new().select_role(&start, Role::Knight);
    assert!(unchanged(&early, &early.select_move(&start, nf3)));
}

#[test]
fn back_goes_one_step_at_a_time() {
    let start = Position::initial();
    let nf3 = find(&start, "Nf3");
    let third = RookieResolver::new()
        .select_role(&start, Role::Knight)
        .select_square(&start, G1)
        .select_move(&start, nf3);
    let second = third.back();
    assert_eq!(second.stage(), Stage::Origin);
    assert_eq!(second.role(), Some(Role::Knight));
    assert_eq!(second.from_square(), None);
    assert_eq!(second.resolved_move(), None);
    let first = second.back();
    assert_eq!(first.stage(), Stage::Piece);
    assert_eq!(first.role(), None);
    let still = first.back();
    assert!(unchanged(&first, &still));
}

#[test]
fn a_role_cannot_be_changed_without_going_back() {
    let start = Position::initial();
    let second = RookieResolver::new().select_role(&start, Role::Knight);
    let after = second.select_role(&start, Role::Pawn);
    assert!(unchanged(&second, &after));
}

#[test]
fn commit_plays_the_chosen_move_and_starts_over() {
    let game = AnnotatedGame::new(day());
    let start = game.last_game_position();
    let nf3 = find(&start, "Nf3");
    let resolver = RookieResolver::new()
        .select_role(&start, Role::Knight)
        .select_square(&start, G1)
        .select_move(&start, nf3);
    let (resolver, game) = resolver.commit(game);
    assert_eq!(resolver.stage(), Stage::Piece);
    assert_eq!(resolver.resolved_move(), None);
    assert_eq!(game.position_count(), 2);
    assert_eq!(game.pgn_game().moves, vec!["Nf3".to_string()]);
}

#[test]
fn commit_without_a_move_starts_over_and_plays_nothing() {
    let game = AnnotatedGame::new(day());
    let start = game.last_game_position();
    let resolver = RookieResolver::new().select_role(&start, Role::Pawn);
    let (resolver, game) = resolver.commit(game);
    assert_eq!(resolver.stage(), Stage::Piece);
    assert_eq!(game.position_count(), 1);
}

#[test]
fn a_move_that_is_no_longer_legal_is_dropped_at_commit() {
    let game = AnnotatedGame::new(day());
    let start = game.last_game_position();
    let nf3 = find(&start, "Nf3");
    let resolver = RookieResolver::new()
        .select_role(&start, Role::Knight)
        .select_square(&start, G1)
        .select_move(&start, nf3);
    let game = game.reduce(AnnotatedGameAction::PlayMove(find(&start, "e4")));
    let (resolver, game) = resolver.commit(game);
    assert_eq!(resolver.stage(), Stage::Piece);
    assert_eq!(game.position_count(), 2);
    assert_eq!(game.pgn_game().moves, vec!["e4".to_string()]);
}

#[test]
fn both_resolvers_commit_the_same_move_to_the_same_game() {
    let start = Position::initial();
    let nf3 = find(&start, "Nf3");
    let rookie = RookieResolver::new()
        .select_role(&start, Role::Knight)
        .select_square(&start, G1)
        .select_move(&start, nf3);
    let expert = ExpertResolver::set_input(&start, "Nf3".to_string());
    assert_eq!(expert.ready(), rookie.resolved_move());
    let (_, by_rookie) = rookie.commit(AnnotatedGame::new(day()));
    let (_, by_expert) = expert.commit(AnnotatedGame::new(day()));
    assert_eq!(by_rookie.pgn_game().moves, by_expert.pgn_game().moves);
    assert_eq!(
        by_rookie.last_game_position().fen(),
        by_expert.last_game_position().fen()
    );
}

#[test]
fn a_click_on_a_square_chooses_the_first_move_that_goes_there() {
    let start = Position::initial();
    let moves = annotator::rookie::moves_of_piece(&start, Role::Knight, G1);
    let f3 = Square { index: 21 };
    assert_eq!(annotator::rookie::move_to(&moves, f3), Some(find(&start, "Nf3")));
    assert_eq!(annotator::rookie::move_to(&moves, E4), None);
    assert_eq!(annotator::rookie::move_to(&Vec::new(), f3), None);
    // Of two moves to one square the first of the list is chosen.
    let first = Move { role: 2, from: Some(1), to: 11, promotion: None };
    let second = Move { role: 2, from: Some(21), to: 11, promotion: None };
    let other = Move { role: 2, from: Some(21), to: 27, promotion: None };
    let list = vec![other, first, second];
    assert_eq!(annotator::rookie::move_to(&list, Square { index: 11 }), Some(first));
    assert_eq!(annotator::rookie::move_to(&list, Square { index: 27 }), Some(other));
}
