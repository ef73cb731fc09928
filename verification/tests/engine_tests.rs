use minerva::board::BoardState;
use minerva::board::Piece;
use minerva::board::PieceKind;
use minerva::board::PlayerSide;
use minerva::board::Square;
use minerva::engine::cannon_moves;
use minerva::engine::generate_candidates;
use minerva::engine::horse_moves;
use minerva::engine::piece_value;
use minerva::engine::rook_like_moves;
use minerva::engine::soldier_moves;
use minerva::engine::GameEngine;
use minerva::engine::RuleBasedEngine;
use minerva::game::GameSnapshot;
use minerva::game::TurnContext;

fn put(board: &mut BoardState, file: u8, rank: u8, owner: PlayerSide, kind: PieceKind) {
    assert!(board.set_piece(Square::new(file, rank), Some(Piece { owner, kind })));
}

#[test]
fn cannon_jumps_exactly_one_screen() {
    // Cannon at (4,1); screen at (4,4); empty (4,5) and (4,6); enemy at (4,7);
    // another enemy beyond at (4,9).
    let mut board = BoardState::empty();
    put(&mut board, 4, 1, PlayerSide::Blue, PieceKind::Cannon);
    put(&mut board, 4, 4, PlayerSide::Blue, PieceKind::Soldier);
    put(&mut board, 4, 7, PlayerSide::Red, PieceKind::Horse);
    put(&mut board, 4, 9, PlayerSide::Red, PieceKind::Chariot);
    let moves = cannon_moves(&board, PlayerSide::Blue, Square::new(4, 1));
    let targets: Vec<(u8, u8, u32)> = moves
        .iter()
        .map(|c| (c.mv.to.file, c.mv.to.rank, c.score))
        .collect();
    // Quiet moves past the screen, then the capture; nothing before the
    // screen, nothing past the second piece.
    assert!(targets.contains(&(4, 5, 1)));
    assert!(targets.contains(&(4, 6, 1)));
    assert!(targets.contains(&(4, 7, 70)));
    assert!(!targets.iter().any(|t| t.0 == 4 && t.1 < 4));
    assert!(!targets.iter().any(|t| t.0 == 4 && t.1 > 7));
}

#[test]
fn cannon_screen_then_enemy_two_further() {
    // The configuration of the screen law: screen at (4,4), empty (4,5),
    // enemy at (4,6).
    let mut board = BoardState::empty();
    put(&mut board, 4, 1, PlayerSide::Blue, PieceKind::Cannon);
    put(&mut board, 4, 4, PlayerSide::Red, PieceKind::Soldier);
    put(&mut board, 4, 6, PlayerSide::Red, PieceKind::Horse);
    let moves = cannon_moves(&board, PlayerSide::Blue, Square::new(4, 1));
    let up: Vec<(u8, u8, u32)> = moves
        .iter()
        .filter(|c| c.mv.to.file == 4 && c.mv.to.rank > 1)
        .map(|c| (c.mv.to.file, c.mv.to.rank, c.score))
        .collect();
    assert_eq!(up, vec![(4, 5, 1), (4, 6, 70)]);
}

#[test]
fn cannon_never_captures_friendly_and_needs_a_screen() {
    // Friendly second piece: the ray ends there without a capture.
    let mut board = BoardState::empty();
    put(&mut board, 4, 1, PlayerSide::Blue, PieceKind::Cannon);
    put(&mut board, 4, 3, PlayerSide::Red, PieceKind::Soldier);
    put(&mut board, 4, 6, PlayerSide::Blue, PieceKind::Horse);
    let moves = cannon_moves(&board, PlayerSide::Blue, Square::new(4, 1));
    let up: Vec<(u8, u8)> = moves
        .iter()
        .filter(|c| c.mv.to.file == 4 && c.mv.to.rank > 1)
        .map(|c| (c.mv.to.file, c.mv.to.rank))
        .collect();
    assert_eq!(up, vec![(4, 4), (4, 5)]);

    // A lone cannon has no screen on any ray, so no destination at all.
    let mut board = BoardState::empty();
    put(&mut board, 4, 1, PlayerSide::Blue, PieceKind::Cannon);
    assert!(cannon_moves(&board, PlayerSide::Blue, Square::new(4, 1)).is_empty());
}

#[test]
fn horse_leg_block_excludes_destination() {
    let mut board = BoardState::empty();
    put(&mut board, 4, 4, PlayerSide::Blue, PieceKind::Horse);
    // Block the (0,1) leg: patterns through (4,5) are excluded even though
    // their destinations (3,6) and (5,6) are empty.
    put(&mut board, 4, 5, PlayerSide::Red, PieceKind::Soldier);
    let moves = horse_moves(&board, PlayerSide::Blue, Square::new(4, 4));
    assert!(!moves.iter().any(|c| c.mv.to == Square::new(3, 6)));
    assert!(!moves.iter().any(|c| c.mv.to == Square::new(5, 6)));
    // Patterns with free legs are still offered.
    assert!(moves.iter().any(|c| c.mv.to == Square::new(6, 5)));
}

#[test]
fn soldier_sideways_only_after_river() {
    let mut board = BoardState::empty();
    put(&mut board, 4, 4, PlayerSide::Blue, PieceKind::Soldier);
    let before = soldier_moves(&board, PlayerSide::Blue, Square::new(4, 4));
    assert!(before.iter().all(|c| c.mv.to.rank != 4));

    let mut board = BoardState::empty();
    put(&mut board, 4, 5, PlayerSide::Blue, PieceKind::Soldier);
    let after = soldier_moves(&board, PlayerSide::Blue, Square::new(4, 5));
    assert!(after.iter().any(|c| c.mv.to == Square::new(3, 5)));
    assert!(after.iter().any(|c| c.mv.to == Square::new(5, 5)));

    // Red crosses in the other direction.
    let mut board = BoardState::empty();
    put(&mut board, 4, 5, PlayerSide::Red, PieceKind::Soldier);
    let red_before = soldier_moves(&board, PlayerSide::Red, Square::new(4, 5));
    assert!(red_before.iter().all(|c| c.mv.to.rank != 5));
    let mut board = BoardState::empty();
    put(&mut board, 4, 4, PlayerSide::Red, PieceKind::Soldier);
    let red_after = soldier_moves(&board, PlayerSide::Red, Square::new(4, 4));
    assert!(red_after.iter().any(|c| c.mv.to == Square::new(3, 4)));
}

#[test]
fn evaluate_empty_side_yields_no_candidates() {
    let mut snapshot = GameSnapshot::default();
    snapshot.board = BoardState::empty();
    // Give Red one piece so the position is not fully empty.
    snapshot
        .board
        .set_piece(Square::new(0, 9), Some(Piece { owner: PlayerSide::Red, kind: PieceKind::General }));
    let engine = RuleBasedEngine::new();
    let decision = engine
        .evaluate_position(&TurnContext { snapshot, side: PlayerSide::Blue })
        .expect("evaluate");
    assert!(decision.best_move.is_none());
    assert!(decision.candidates.is_empty());
}

#[test]
fn initial_chariot_slides_two_open_ranks() {
    // On the initial layout the file-0 chariot can slide only up its own
    // file onto the two empty ranks before its soldier; every other
    // direction is blocked at once.
    let board = BoardState::initial();
    let moves = rook_like_moves(&board, PlayerSide::Blue, Square::new(0, 0));
    let targets: Vec<Square> = moves.iter().map(|c| c.mv.to).collect();
    assert_eq!(targets, vec![Square::new(0, 1), Square::new(0, 2)]);
    assert!(moves.iter().all(|c| c.score == 1));
}

#[test]
fn hold_move_returned_when_no_candidate_exists() {
    // A lone blue general outside its palace footprint cannot move (its
    // one-step destinations fall outside the palace), so the engine holds.
    let mut board = BoardState::empty();
    put(&mut board, 0, 5, PlayerSide::Blue, PieceKind::General);
    let candidates = generate_candidates(&board, PlayerSide::Blue);
    assert_eq!(candidates.len(), 1);
    assert_eq!(candidates[0].mv.from, Square::new(0, 5));
    assert_eq!(candidates[0].mv.to, Square::new(0, 5));
    assert_eq!(candidates[0].score, 0);
    assert_eq!(candidates[0].depth, 0);
}

#[test]
fn capture_outranks_quiet_moves() {
    // A chariot that can capture a horse should propose that capture first.
    let mut snapshot = GameSnapshot::default();
    snapshot.board = BoardState::empty();
    put(&mut snapshot.board, 0, 0, PlayerSide::Blue, PieceKind::Chariot);
    put(&mut snapshot.board, 0, 5, PlayerSide::Red, PieceKind::Horse);
    let engine = RuleBasedEngine::new();
    let decision = engine
        .evaluate_position(&TurnContext { snapshot, side: PlayerSide::Blue })
        .expect("evaluate");
    let best = decision.best_move.expect("a best move");
    assert_eq!(best.from, Square::new(0, 0));
    assert_eq!(best.to, Square::new(0, 5));
    assert_eq!(decision.candidates[0].score, piece_value(Piece {
        owner: PlayerSide::Red,
        kind: PieceKind::Horse,
    }));
    // Scores never increase down the sorted list.
    for pair in decision.candidates.windows(2) {
        assert!(pair[0].score >= pair[1].score);
    }
}

#[test]
fn equal_scores_keep_enumeration_order() {
    // Two quiet chariot moves scored equally stay in generation order
    // after the stable sort.
    let mut board = BoardState::empty();
    put(&mut board, 4, 0, PlayerSide::Blue, PieceKind::Chariot);
    let raw = generate_candidates(&board, PlayerSide::Blue);
    let mut snapshot = GameSnapshot::default();
    snapshot.board = board;
    let engine = RuleBasedEngine::new();
    let decision = engine
        .evaluate_position(&TurnContext { snapshot, side: PlayerSide::Blue })
        .expect("evaluate");
    let raw_targets: Vec<Square> = raw.iter().map(|c| c.mv.to).collect();
    let sorted_targets: Vec<Square> = decision.candidates.iter().map(|c| c.mv.to).collect();
    assert_eq!(raw_targets, sorted_targets);
}

#[test]
fn piece_values_match_material_table() {
    let v = |kind| piece_value(Piece { owner: PlayerSide::Blue, kind });
    assert_eq!(v(PieceKind::General), 10000);
    assert_eq!(v(PieceKind::Chariot), 130);
    assert_eq!(v(PieceKind::Cannon), 90);
    assert_eq!(v(PieceKind::Horse), 70);
    assert_eq!(v(PieceKind::Elephant), 50);
    assert_eq!(v(PieceKind::Guard), 30);
    assert_eq!(v(PieceKind::Soldier), 10);
}

#[test]
fn general_moves_stay_in_palace() {
    let mut board = BoardState::empty();
    put(&mut board, 4, 1, PlayerSide::Blue, PieceKind::General);
    let candidates = generate_candidates(&board, PlayerSide::Blue);
    for c in candidates.iter() {
        assert!(c.mv.to.file >= 3 && c.mv.to.file <= 5);
        assert!(c.mv.to.rank <= 2);
    }
    // All eight palace neighbours of the centre are reachable.
    assert_eq!(candidates.len(), 8);
}
