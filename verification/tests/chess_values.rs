use annotator::{Role, Square};

#[test]
fn role_codes_round_trip() {
    for role in [Role::Pawn, Role::Knight, Role::Bishop, Role::Rook, Role::Queen, Role::King] {
        assert_eq!(Role::from_code(role.code()), Some(role));
    }
    assert_eq!(Role::from_code(0), None);
    assert_eq!(Role::from_code(7), None);
}

#[test]
fn square_new_checks_the_board() {
    assert_eq!(Square::new(63), Some(Square { index: 63 }));
    assert_eq!(Square::new(64), None);
}
