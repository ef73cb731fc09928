use minerva::board::BoardState;
use minerva::board::PieceKind;
use minerva::board::Piece;
use minerva::board::PlayerSide;
use minerva::board::Square;

#[test]
fn index_bounds() {
    let board = BoardState::empty();
    let valid = Square::new(2, 3);
    let invalid = Square::new(9, 9);
    assert!(board.index(valid).is_some());
    assert!(board.index(invalid).is_none());
}

#[test]
fn opponent_switch() {
    assert_eq!(PlayerSide::Blue.opponent(), PlayerSide::Red);
    assert_eq!(PlayerSide::Red.opponent(), PlayerSide::Blue);
}

#[test]
fn initial_board_setup() {
    let board = BoardState::initial();
    // Blue General at (4,0)
    let general = board.piece_at(Square::new(4, 0)).expect("general present");
    assert_eq!(general.owner, PlayerSide::Blue);
    assert_eq!(general.kind, PieceKind::General);

    // Red Cannon at (1,7)
    let cannon = board
        .piece_at(Square::new(1, board.height - 3))
        .expect("cannon present");
    assert_eq!(cannon.owner, PlayerSide::Red);
    assert_eq!(cannon.kind, PieceKind::Cannon);

    // Soldier positions
    assert!(board
        .piece_at(Square::new(0, 3))
        .filter(|p| p.kind == PieceKind::Soldier)
        .is_some());
    assert!(board
        .piece_at(Square::new(8, board.height - 4))
        .filter(|p| p.owner == PlayerSide::Red && p.kind == PieceKind::Soldier)
        .is_some());
}

#[test]
fn board_differences_detect_changes() {
    let a = BoardState::initial();
    let mut b = a.clone();
    let from = Square::new(0, 3);
    let to = Square::new(0, 4);
    b.move_piece(from, to).unwrap();
    let diffs = a.differences(&b);
    assert_eq!(diffs.len(), 2);
    let inferred = BoardState::infer_move_from_diffs(&diffs).expect("infer move");
    assert_eq!(inferred.0, from);
    assert_eq!(inferred.1, to);
}

#[test]
fn move_piece_reports_capture_and_clears_origin() {
    let mut board = BoardState::empty();
    let from = Square::new(2, 2);
    let to = Square::new(2, 5);
    let mover = Piece { owner: PlayerSide::Blue, kind: PieceKind::Chariot };
    let victim = Piece { owner: PlayerSide::Red, kind: PieceKind::Horse };
    assert!(board.set_piece(from, Some(mover)));
    assert!(board.set_piece(to, Some(victim)));
    let captured = board.move_piece(from, to).expect("move");
    assert_eq!(captured, Some(victim));
    assert!(board.piece_at(from).is_none());
    assert_eq!(board.piece_at(to), Some(mover));
}

#[test]
fn move_piece_from_empty_square_fails() {
    let mut board = BoardState::empty();
    let r = board.move_piece(Square::new(0, 0), Square::new(0, 1));
    assert!(r.is_err());
    // The board is untouched.
    assert!(board.piece_at(Square::new(0, 1)).is_none());
}

#[test]
fn differences_of_identical_boards_is_empty() {
    let a = BoardState::initial();
    let b = BoardState::initial();
    assert!(a.differences(&b).is_empty());
    let e = BoardState::empty();
    assert!(e.differences(&e).is_empty());
}

#[test]
fn differences_are_symmetric_with_sides_swapped() {
    let a = BoardState::initial();
    let mut b = a.clone();
    b.move_piece(Square::new(1, 2), Square::new(1, 5)).unwrap();
    let ab = a.differences(&b);
    let ba = b.differences(&a);
    assert_eq!(ab.len(), ba.len());
    for (x, y) in ab.iter().zip(ba.iter()) {
        assert_eq!(x.square, y.square);
        assert_eq!(x.before, y.after);
        assert_eq!(x.after, y.before);
    }
}

#[test]
fn infer_move_with_capture_reports_victim() {
    let mut a = BoardState::empty();
    let from = Square::new(4, 4);
    let to = Square::new(4, 7);
    let mover = Piece { owner: PlayerSide::Blue, kind: PieceKind::Chariot };
    let victim = Piece { owner: PlayerSide::Red, kind: PieceKind::Soldier };
    a.set_piece(from, Some(mover));
    a.set_piece(to, Some(victim));
    let mut b = a.clone();
    b.move_piece(from, to).unwrap();
    let diffs = a.differences(&b);
    let inferred = BoardState::infer_move_from_diffs(&diffs).expect("infer move");
    assert_eq!(inferred.0, from);
    assert_eq!(inferred.1, to);
    assert_eq!(inferred.2, mover);
    assert_eq!(inferred.3, Some(victim));
}

#[test]
fn infer_move_without_changes_is_none() {
    assert!(BoardState::infer_move_from_diffs(&[]).is_none());
}

#[test]
fn square_offset_respects_board_edges() {
    let corner = Square::new(0, 0);
    assert!(corner.offset(-1, 0).is_none());
    assert!(corner.offset(0, -1).is_none());
    assert_eq!(corner.offset(1, 1), Some(Square::new(1, 1)));
    let far = Square::new(8, 9);
    assert!(far.offset(1, 0).is_none());
    assert!(far.offset(0, 1).is_none());
}
