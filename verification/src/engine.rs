//! Rule-based decision engine: per-piece candidate-move generation over
//! the board model, capture scoring, and a one-ply greedy evaluation.

use vstd::prelude::*;
use vstd::multiset::Multiset;

use crate::board::BoardState;
use crate::board::Piece;
use crate::board::PieceKind;
use crate::board::PlayerSide;
use crate::board::Square;
use crate::errors::MinervaError;
use crate::game::EngineDecision;
use crate::game::Move;
use crate::game::MoveCandidate;
use crate::game::TurnContext;

verus! {

/// Material value of a piece kind, in tenths of a point. Capturing moves
/// score the captured piece's value; quiet moves score one tenth.
pub open spec fn piece_points(kind: PieceKind) -> u32 {
    match kind {
        PieceKind::General => 10000,
        PieceKind::Guard => 30,
        PieceKind::Elephant => 50,
        PieceKind::Horse => 70,
        PieceKind::Chariot => 130,
        PieceKind::Cannon => 90,
        PieceKind::Soldier => 10,
    }
}

/// The candidate built for a move from `from` to `to` that captures
/// `capture`: its score doubles as the move's confidence.
pub open spec fn candidate_for(from: Square, to: Square, capture: Option<Piece>) -> MoveCandidate {
    let score: u32 = match capture {
        Some(p) => piece_points(p.kind),
        None => 1,
    };
    MoveCandidate {
        mv: Move { from, to, promotion: None, confidence: Some(score) },
        score,
        depth: 1,
    }
}

/// A destination square is open to `side` when it is empty or holds an
/// enemy piece.
pub open spec fn target_open(b: BoardState, side: PlayerSide, to: Square) -> bool {
    match b.spec_piece_at(to) {
        Some(p) => p.owner != side,
        None => true,
    }
}

/// The candidate, if any, for a single step from `from` by `(df, dr)`:
/// none when the step leaves the board or the destination holds a
/// friendly piece.
pub open spec fn step_candidate(
    b: BoardState,
    side: PlayerSide,
    from: Square,
    df: int,
    dr: int,
) -> Seq<MoveCandidate> {
    match from.spec_offset(df, dr) {
        Some(to) => if target_open(b, side, to) {
            seq![candidate_for(from, to, b.spec_piece_at(to))]
        } else {
            Seq::empty()
        },
        None => Seq::empty(),
    }
}

/// Rank direction a soldier of `side` advances in.
pub open spec fn forward_of(side: PlayerSide) -> int {
    match side {
        PlayerSide::Blue => 1,
        PlayerSide::Red => -1,
    }
}

/// Whether a soldier of `side` on `rank` has crossed the river of a
/// board with the given height and so may also step sideways.
pub open spec fn river_crossed(side: PlayerSide, rank: int, height: int) -> bool {
    let river = height / 2;
    match side {
        PlayerSide::Blue => rank >= river,
        PlayerSide::Red => rank <= (if river >= 1 {
            river - 1
        } else {
            0
        }),
    }
}

/// Soldier rule: one step forward onto an open square; after crossing
/// the river also one step left or right.
pub open spec fn soldier_targets(b: BoardState, side: PlayerSide, from: Square) -> Seq<
    MoveCandidate,
> {
    step_candidate(b, side, from, 0, forward_of(side)) + (if river_crossed(
        side,
        from.rank as int,
        b.height as int,
    ) {
        step_candidate(b, side, from, -1, 0) + step_candidate(b, side, from, 1, 0)
    } else {
        Seq::empty()
    })
}

/// Computes the material value of a piece, in tenths of a point.
pub fn piece_value(piece: Piece) -> (v: u32)
    ensures
        v == piece_points(piece.kind),
{
    match piece.kind {
        PieceKind::General => 10000,
        PieceKind::Guard => 30,
        PieceKind::Elephant => 50,
        PieceKind::Horse => 70,
        PieceKind::Chariot => 130,
        PieceKind::Cannon => 90,
        PieceKind::Soldier => 10,
    }
}

/// Builds the candidate for one move, scoring the capture if there is
/// one.
pub fn candidate(from: Square, to: Square, capture: Option<Piece>) -> (c: MoveCandidate)
    ensures
        c == candidate_for(from, to, capture),
{
    let score: u32 = match capture {
        Some(p) => piece_value(p),
        None => 1,
    };
    MoveCandidate {
        mv: Move { from, to, promotion: None, confidence: Some(score) },
        score,
        depth: 1,
    }
}

/// Appends the candidate, if any, for a single step from `from`.
fn push_step(
    board: &BoardState,
    side: PlayerSide,
    from: Square,
    df: i8,
    dr: i8,
    options: &mut Vec<MoveCandidate>,
)
    ensures
        final(options)@ == old(options)@ + step_candidate(
            *board,
            side,
            from,
            df as int,
            dr as int,
        ),
{
    let ghost pre = options@;
    match from.offset(df, dr) {
        Some(to) => {
            match board.piece_at(to) {
                None => {
                    options.push(candidate(from, to, None));
                },
                Some(p) => {
                    if p.owner != side {
                        options.push(candidate(from, to, Some(p)));
                    }
                },
            }
        },
        None => {},
    }
    proof {
        assert(options@ =~= pre + step_candidate(*board, side, from, df as int, dr as int));
    }
}

/// Candidate moves of a soldier standing on `from`.
pub fn soldier_moves(board: &BoardState, side: PlayerSide, from: Square) -> (v: Vec<MoveCandidate>)
    ensures
        v@ == soldier_targets(*board, side, from),
{
    let mut options: Vec<MoveCandidate> = Vec::new();
    let forward: i8 = match side {
        PlayerSide::Blue => 1,
        PlayerSide::Red => -1,
    };
    push_step(board, side, from, 0, forward, &mut options);
    let river: u8 = board.height / 2;
    let crossed = match side {
        PlayerSide::Blue => from.rank >= river,
        PlayerSide::Red => from.rank <= (if river >= 1 {
            river - 1
        } else {
            0
        }),
    };
    if crossed {
        push_step(board, side, from, -1, 0, &mut options);
        push_step(board, side, from, 1, 0, &mut options);
    }
    proof {
        assert(options@ =~= soldier_targets(*board, side, from));
    }
    options
}

/// One of the four cardinal sliding directions.
#[derive(Debug, Clone, Copy, PartialEq, Eq, Structural)]
pub enum Direction {
    Right,
    Left,
    Up,
    Down,
}

/// File component of a direction.
pub open spec fn dir_df(d: Direction) -> int {
    match d {
        Direction::Right => 1,
        Direction::Left => -1,
        Direction::Up => 0,
        Direction::Down => 0,
    }
}

/// Rank component of a direction.
pub open spec fn dir_dr(d: Direction) -> int {
    match d {
        Direction::Right => 0,
        Direction::Left => 0,
        Direction::Up => 1,
        Direction::Down => -1,
    }
}

/// How many steps a slide from `cur` can still take before leaving the
/// board; a termination measure for the ray recursions.
pub open spec fn ray_measure(cur: Square, d: Direction) -> int {
    match d {
        Direction::Right => 9 - cur.file,
        Direction::Left => cur.file as int,
        Direction::Up => 10 - cur.rank,
        Direction::Down => cur.rank as int,
    }
}

/// Chariot rule along one ray starting just past `cur`: empty squares
/// are quiet destinations; the first piece stops the slide and is a
/// capture exactly when it is an enemy.
pub open spec fn chariot_ray(
    b: BoardState,
    side: PlayerSide,
    from: Square,
    cur: Square,
    d: Direction,
) -> Seq<MoveCandidate>
    decreases ray_measure(cur, d),
{
    match cur.spec_offset(dir_df(d), dir_dr(d)) {
        Some(next) => match b.spec_piece_at(next) {
            Some(p) => if p.owner != side {
                seq![candidate_for(from, next, Some(p))]
            } else {
                Seq::empty()
            },
            None => seq![candidate_for(from, next, None)] + chariot_ray(b, side, from, next, d),
        },
        None => Seq::empty(),
    }
}

/// Chariot rule: slides in the four cardinal directions.
pub open spec fn chariot_targets(b: BoardState, side: PlayerSide, from: Square) -> Seq<
    MoveCandidate,
> {
    chariot_ray(b, side, from, from, Direction::Right) + chariot_ray(
        b,
        side,
        from,
        from,
        Direction::Left,
    ) + chariot_ray(b, side, from, from, Direction::Up) + chariot_ray(
        b,
        side,
        from,
        from,
        Direction::Down,
    )
}

/// Cannon rule along one ray starting just past `cur`. Before a screen
/// has been passed (`screen` false) no square is a destination: the
/// first piece met, of either owner, becomes the screen. Past the
/// screen, empty squares are quiet destinations, and the next piece met
/// ends the ray, as a capture exactly when it is an enemy.
pub open spec fn cannon_ray(
    b: BoardState,
    side: PlayerSide,
    from: Square,
    cur: Square,
    d: Direction,
    screen: bool,
) -> Seq<MoveCandidate>
    decreases ray_measure(cur, d),
{
    match cur.spec_offset(dir_df(d), dir_dr(d)) {
        Some(next) => match b.spec_piece_at(next) {
            Some(p) => if !screen {
                cannon_ray(b, side, from, next, d, true)
            } else if p.owner != side {
                seq![candidate_for(from, next, Some(p))]
            } else {
                Seq::empty()
            },
            None => if screen {
                seq![candidate_for(from, next, None)] + cannon_ray(b, side, from, next, d, true)
            } else {
                cannon_ray(b, side, from, next, d, false)
            },
        },
        None => Seq::empty(),
    }
}

/// Cannon rule: slides in the four cardinal directions, jumping exactly
/// one screen.
pub open spec fn cannon_targets(b: BoardState, side: PlayerSide, from: Square) -> Seq<
    MoveCandidate,
> {
    cannon_ray(b, side, from, from, Direction::Right, false) + cannon_ray(
        b,
        side,
        from,
        from,
        Direction::Left,
        false,
    ) + cannon_ray(b, side, from, from, Direction::Up, false) + cannon_ray(
        b,
        side,
        from,
        from,
        Direction::Down,
        false,
    )
}

/// File and rank components of a direction, as machine integers.
fn dir_deltas(d: Direction) -> (r: (i8, i8))
    ensures
        r.0 == dir_df(d),
        r.1 == dir_dr(d),
{
    match d {
        Direction::Right => (1, 0),
        Direction::Left => (-1, 0),
        Direction::Up => (0, 1),
        Direction::Down => (0, -1),
    }
}

/// Appends the chariot destinations along one ray.
fn chariot_extend(
    board: &BoardState,
    side: PlayerSide,
    from: Square,
    cur: Square,
    d: Direction,
    options: &mut Vec<MoveCandidate>,
)
    ensures
        final(options)@ == old(options)@ + chariot_ray(*board, side, from, cur, d),
    decreases ray_measure(cur, d),
{
    let ghost pre = options@;
    let (df, dr) = dir_deltas(d);
    match cur.offset(df, dr) {
        Some(next) => {
            match board.piece_at(next) {
                Some(p) => {
                    if p.owner != side {
                        options.push(candidate(from, next, Some(p)));
                    }
                },
                None => {
                    options.push(candidate(from, next, None));
                    chariot_extend(board, side, from, next, d, options);
                },
            }
        },
        None => {},
    }
    proof {
        assert(options@ =~= pre + chariot_ray(*board, side, from, cur, d));
    }
}

/// Candidate moves of a chariot standing on `from`.
pub fn rook_like_moves(board: &BoardState, side: PlayerSide, from: Square) -> (v: Vec<
    MoveCandidate,
>)
    ensures
        v@ == chariot_targets(*board, side, from),
{
    let mut options: Vec<MoveCandidate> = Vec::new();
    chariot_extend(board, side, from, from, Direction::Right, &mut options);
    chariot_extend(board, side, from, from, Direction::Left, &mut options);
    chariot_extend(board, side, from, from, Direction::Up, &mut options);
    chariot_extend(board, side, from, from, Direction::Down, &mut options);
    proof {
        assert(options@ =~= chariot_targets(*board, side, from));
    }
    options
}

/// Appends the cannon destinations along one ray.
fn cannon_extend(
    board: &BoardState,
    side: PlayerSide,
    from: Square,
    cur: Square,
    d: Direction,
    screen: bool,
    options: &mut Vec<MoveCandidate>,
)
    ensures
        final(options)@ == old(options)@ + cannon_ray(*board, side, from, cur, d, screen),
    decreases ray_measure(cur, d),
{
    let ghost pre = options@;
    let (df, dr) = dir_deltas(d);
    match cur.offset(df, dr) {
        Some(next) => {
            match board.piece_at(next) {
                Some(p) => {
                    if !screen {
                        cannon_extend(board, side, from, next, d, true, options);
                    } else if p.owner != side {
                        options.push(candidate(from, next, Some(p)));
                    }
                },
                None => {
                    if screen {
                        options.push(candidate(from, next, None));
                        cannon_extend(board, side, from, next, d, true, options);
                    } else {
                        cannon_extend(board, side, from, next, d, false, options);
                    }
                },
            }
        },
        None => {},
    }
    proof {
        assert(options@ =~= pre + cannon_ray(*board, side, from, cur, d, screen));
    }
}

/// Candidate moves of a cannon standing on `from`.
pub fn cannon_moves(board: &BoardState, side: PlayerSide, from: Square) -> (v: Vec<MoveCandidate>)
    ensures
        v@ == cannon_targets(*board, side, from),
{
    let mut options: Vec<MoveCandidate> = Vec::new();
    cannon_extend(board, side, from, from, Direction::Right, false, &mut options);
    cannon_extend(board, side, from, from, Direction::Left, false, &mut options);
    cannon_extend(board, side, from, from, Direction::Up, false, &mut options);
    cannon_extend(board, side, from, from, Direction::Down, false, &mut options);
    proof {
        assert(options@ =~= cannon_targets(*board, side, from));
    }
    options
}

/// One horse pattern: an orthogonal leg step that must land on an empty
/// square, then a diagonal step outward to an open destination.
pub open spec fn horse_pattern(
    b: BoardState,
    side: PlayerSide,
    from: Square,
    leg_df: int,
    leg_dr: int,
    dest_df: int,
    dest_dr: int,
) -> Seq<MoveCandidate> {
    match from.spec_offset(leg_df, leg_dr) {
        Some(block) => if b.spec_piece_at(block) is None {
            match block.spec_offset(dest_df, dest_dr) {
                Some(to) => if target_open(b, side, to) {
                    seq![candidate_for(from, to, b.spec_piece_at(to))]
                } else {
                    Seq::empty()
                },
                None => Seq::empty(),
            }
        } else {
            Seq::empty()
        },
        None => Seq::empty(),
    }
}

/// Horse rule: the eight leg-then-diagonal patterns, in a fixed order.
pub open spec fn horse_targets(b: BoardState, side: PlayerSide, from: Square) -> Seq<
    MoveCandidate,
> {
    horse_pattern(b, side, from, 1, 0, 1, 1) + horse_pattern(b, side, from, 1, 0, 1, -1)
        + horse_pattern(b, side, from, -1, 0, -1, 1) + horse_pattern(b, side, from, -1, 0, -1, -1)
        + horse_pattern(b, side, from, 0, 1, 1, 1) + horse_pattern(b, side, from, 0, 1, -1, 1)
        + horse_pattern(b, side, from, 0, -1, 1, -1) + horse_pattern(b, side, from, 0, -1, -1, -1)
}

/// Appends the candidate, if any, of one horse pattern.
fn push_horse_pattern(
    board: &BoardState,
    side: PlayerSide,
    from: Square,
    leg_df: i8,
    leg_dr: i8,
    dest_df: i8,
    dest_dr: i8,
    options: &mut Vec<MoveCandidate>,
)
    ensures
        final(options)@ == old(options)@ + horse_pattern(
            *board,
            side,
            from,
            leg_df as int,
            leg_dr as int,
            dest_df as int,
            dest_dr as int,
        ),
{
    let ghost pre = options@;
    if let Some(block) = from.offset(leg_df, leg_dr) {
        if board.is_empty(block) {
            if let Some(to) = block.offset(dest_df, dest_dr) {
                match board.piece_at(to) {
                    None => {
                        options.push(candidate(from, to, None));
                    },
                    Some(p) => {
                        if p.owner != side {
                            options.push(candidate(from, to, Some(p)));
                        }
                    },
                }
            }
        }
    }
    proof {
        assert(options@ =~= pre + horse_pattern(
            *board,
            side,
            from,
            leg_df as int,
            leg_dr as int,
            dest_df as int,
            dest_dr as int,
        ));
    }
}

/// Candidate moves of a horse standing on `from`.
pub fn horse_moves(board: &BoardState, side: PlayerSide, from: Square) -> (v: Vec<MoveCandidate>)
    ensures
        v@ == horse_targets(*board, side, from),
{
    let mut options: Vec<MoveCandidate> = Vec::new();
    push_horse_pattern(board, side, from, 1, 0, 1, 1, &mut options);
    push_horse_pattern(board, side, from, 1, 0, 1, -1, &mut options);
    push_horse_pattern(board, side, from, -1, 0, -1, 1, &mut options);
    push_horse_pattern(board, side, from, -1, 0, -1, -1, &mut options);
    push_horse_pattern(board, side, from, 0, 1, 1, 1, &mut options);
    push_horse_pattern(board, side, from, 0, 1, -1, 1, &mut options);
    push_horse_pattern(board, side, from, 0, -1, 1, -1, &mut options);
    push_horse_pattern(board, side, from, 0, -1, -1, -1, &mut options);
    proof {
        assert(options@ =~= horse_targets(*board, side, from));
    }
    options
}

/// The 3 by 3 palace of `side` on a board of the given height: files 3
/// to 5, the three ranks nearest that side's back rank.
pub open spec fn in_palace(side: PlayerSide, height: int, sq: Square) -> bool {
    &&& 3 <= sq.file <= 5
    &&& match side {
        PlayerSide::Blue => sq.rank <= 2,
        PlayerSide::Red => sq.rank + 1 == height || sq.rank + 2 == height || sq.rank + 3
            == height,
    }
}

/// One palace-confined step: the destination must lie inside the
/// palace of `side` and be open.
pub open spec fn palace_step(
    b: BoardState,
    side: PlayerSide,
    from: Square,
    df: int,
    dr: int,
) -> Seq<MoveCandidate> {
    match from.spec_offset(df, dr) {
        Some(to) => if in_palace(side, b.height as int, to) && target_open(b, side, to) {
            seq![candidate_for(from, to, b.spec_piece_at(to))]
        } else {
            Seq::empty()
        },
        None => Seq::empty(),
    }
}

/// Palace rule: guards and generals step one square in any of the eight
/// directions; elephants jump two squares diagonally; all destinations
/// are clamped to the palace. Other kinds have no palace moves.
pub open spec fn palace_targets(
    b: BoardState,
    side: PlayerSide,
    from: Square,
    kind: PieceKind,
) -> Seq<MoveCandidate> {
    match kind {
        PieceKind::Guard | PieceKind::General => palace_step(b, side, from, 1, 0) + palace_step(
            b,
            side,
            from,
            -1,
            0,
        ) + palace_step(b, side, from, 0, 1) + palace_step(b, side, from, 0, -1) + palace_step(
            b,
            side,
            from,
            1,
            1,
        ) + palace_step(b, side, from, -1, 1) + palace_step(b, side, from, 1, -1) + palace_step(
            b,
            side,
            from,
            -1,
            -1,
        ),
        PieceKind::Elephant => palace_step(b, side, from, 2, 2) + palace_step(b, side, from, 2, -2)
            + palace_step(b, side, from, -2, 2) + palace_step(b, side, from, -2, -2),
        _ => Seq::empty(),
    }
}

/// Appends the candidate, if any, of one palace-confined step.
fn push_palace_step(
    board: &BoardState,
    side: PlayerSide,
    from: Square,
    df: i8,
    dr: i8,
    options: &mut Vec<MoveCandidate>,
)
    ensures
        final(options)@ == old(options)@ + palace_step(*board, side, from, df as int, dr as int),
{
    let ghost pre = options@;
    if let Some(to) = from.offset(df, dr) {
        let file_ok = 3 <= to.file && to.file <= 5;
        let h: u16 = board.height as u16;
        let rk: u16 = to.rank as u16;
        let rank_ok = match side {
            PlayerSide::Blue => to.rank <= 2,
            PlayerSide::Red => rk + 1 == h || rk + 2 == h || rk + 3 == h,
        };
        if file_ok && rank_ok {
            match board.piece_at(to) {
                None => {
                    options.push(candidate(from, to, None));
                },
                Some(p) => {
                    if p.owner != side {
                        options.push(candidate(from, to, Some(p)));
                    }
                },
            }
        }
    }
    proof {
        assert(options@ =~= pre + palace_step(*board, side, from, df as int, dr as int));
    }
}

/// Candidate moves of a palace-confined piece (guard, elephant or
/// general) standing on `from`.
pub fn palace_moves(board: &BoardState, side: PlayerSide, from: Square, kind: PieceKind) -> (v: Vec<
    MoveCandidate,
>)
    ensures
        v@ == palace_targets(*board, side, from, kind),
{
    let mut options: Vec<MoveCandidate> = Vec::new();
    match kind {
        PieceKind::Guard | PieceKind::General => {
            push_palace_step(board, side, from, 1, 0, &mut options);
            push_palace_step(board, side, from, -1, 0, &mut options);
            push_palace_step(board, side, from, 0, 1, &mut options);
            push_palace_step(board, side, from, 0, -1, &mut options);
            push_palace_step(board, side, from, 1, 1, &mut options);
            push_palace_step(board, side, from, -1, 1, &mut options);
            push_palace_step(board, side, from, 1, -1, &mut options);
            push_palace_step(board, side, from, -1, -1, &mut options);
        },
        PieceKind::Elephant => {
            push_palace_step(board, side, from, 2, 2, &mut options);
            push_palace_step(board, side, from, 2, -2, &mut options);
            push_palace_step(board, side, from, -2, 2, &mut options);
            push_palace_step(board, side, from, -2, -2, &mut options);
        },
        _ => {},
    }
    proof {
        assert(options@ =~= palace_targets(*board, side, from, kind));
    }
    options
}

/// Per-kind dispatch of the candidate rules.
pub open spec fn piece_targets(
    b: BoardState,
    side: PlayerSide,
    from: Square,
    kind: PieceKind,
) -> Seq<MoveCandidate> {
    match kind {
        PieceKind::Soldier => soldier_targets(b, side, from),
        PieceKind::Chariot => chariot_targets(b, side, from),
        PieceKind::Horse => horse_targets(b, side, from),
        PieceKind::Cannon => cannon_targets(b, side, from),
        _ => palace_targets(b, side, from, kind),
    }
}

/// What one cell contributes to the enumeration: the moves of the piece
/// standing there, if it belongs to `side`.
pub open spec fn cell_candidates(b: BoardState, side: PlayerSide, file: int, rank: int) -> Seq<
    MoveCandidate,
> {
    let sq = Square { file: file as u8, rank: rank as u8 };
    match b.spec_piece_at(sq) {
        Some(p) => if p.owner == side {
            piece_targets(b, side, sq, p.kind)
        } else {
            Seq::empty()
        },
        None => Seq::empty(),
    }
}

/// Candidates of one rank, files `0 .. file_count`, in file order.
pub open spec fn row_candidates(
    b: BoardState,
    side: PlayerSide,
    rank: int,
    file_count: int,
) -> Seq<MoveCandidate>
    decreases file_count,
{
    if file_count <= 0 {
        Seq::empty()
    } else {
        row_candidates(b, side, rank, file_count - 1) + cell_candidates(
            b,
            side,
            file_count - 1,
            rank,
        )
    }
}

/// Candidates of ranks `0 .. rank_count`, rank-major.
pub open spec fn candidates_up_to(
    b: BoardState,
    side: PlayerSide,
    rank_count: int,
    file_count: int,
) -> Seq<MoveCandidate>
    decreases rank_count,
{
    if rank_count <= 0 {
        Seq::empty()
    } else {
        candidates_up_to(b, side, rank_count - 1, file_count) + row_candidates(
            b,
            side,
            rank_count - 1,
            file_count,
        )
    }
}

/// Every candidate move of `side` on the board, enumerated rank-major
/// over the owning squares.
pub open spec fn raw_candidates(b: BoardState, side: PlayerSide) -> Seq<MoveCandidate> {
    candidates_up_to(b, side, b.height as int, b.width as int)
}

/// The first square at or after `(file, rank)` in rank-major scan order
/// that holds a piece of `side`.
pub open spec fn first_owned_from(
    b: BoardState,
    side: PlayerSide,
    file: int,
    rank: int,
) -> Option<Square>
    decreases b.height - rank, b.width - file,
{
    if rank >= b.height {
        None
    } else if file >= b.width {
        first_owned_from(b, side, 0, rank + 1)
    } else {
        let sq = Square { file: file as u8, rank: rank as u8 };
        if b.spec_piece_at(sq) matches Some(p) && p.owner == side {
            Some(sq)
        } else {
            first_owned_from(b, side, file + 1, rank)
        }
    }
}

/// The hold pseudo-move returned when no candidate exists: the first
/// owned piece "moves" to its own square with score zero, or nothing
/// when `side` has no piece at all.
pub open spec fn hold_candidate(b: BoardState, side: PlayerSide) -> Option<MoveCandidate> {
    match first_owned_from(b, side, 0, 0) {
        Some(sq) => Some(
            MoveCandidate {
                mv: Move { from: sq, to: sq, promotion: None, confidence: Some(0) },
                score: 0,
                depth: 0,
            },
        ),
        None => None,
    }
}

/// What the engine proposes before sorting: every candidate of `side`,
/// or the hold pseudo-move when there is none.
pub open spec fn engine_candidates(b: BoardState, side: PlayerSide) -> Seq<MoveCandidate> {
    let raw = raw_candidates(b, side);
    if raw.len() > 0 {
        raw
    } else {
        match hold_candidate(b, side) {
            Some(c) => seq![c],
            None => Seq::empty(),
        }
    }
}

/// Moves every element of `src` to the end of `dst`.
fn append_all(dst: &mut Vec<MoveCandidate>, src: Vec<MoveCandidate>)
    ensures
        final(dst)@ == old(dst)@ + src@,
{
    let ghost pre = dst@;
    let n = src.len();
    let mut i: usize = 0;
    while i < n
        invariant
            i <= n,
            n == src@.len(),
            dst@ == pre + src@.take(i as int),
        decreases n - i,
    {
        dst.push(src[i]);
        proof {
            assert(pre + src@.take(i + 1) =~= (pre + src@.take(i as int)).push(src@[i as int]));
        }
        i = i + 1;
    }
    proof {
        assert(src@.take(n as int) == src@);
    }
}

/// Enumerates every occupied square owned by `side` in rank-major order
/// and concatenates the per-kind candidate moves; when none exists,
/// falls back to the hold pseudo-move on the first owned piece.
pub fn generate_candidates(board: &BoardState, side: PlayerSide) -> (v: Vec<MoveCandidate>)
    ensures
        v@ == engine_candidates(*board, side),
{
    let mut moves: Vec<MoveCandidate> = Vec::new();
    let mut rank: u8 = 0;
    while rank < board.height
        invariant
            rank <= board.height,
            moves@ == candidates_up_to(*board, side, rank as int, board.width as int),
        decreases board.height - rank,
    {
        let mut file: u8 = 0;
        while file < board.width
            invariant
                rank < board.height,
                file <= board.width,
                moves@ == candidates_up_to(*board, side, rank as int, board.width as int)
                    + row_candidates(*board, side, rank as int, file as int),
            decreases board.width - file,
        {
            let square = Square { file, rank };
            match board.piece_at(square) {
                Some(piece) => {
                    if piece.owner == side {
                        let piece_moves = match piece.kind {
                            PieceKind::Soldier => soldier_moves(board, side, square),
                            PieceKind::Chariot => rook_like_moves(board, side, square),
                            PieceKind::Horse => horse_moves(board, side, square),
                            PieceKind::Cannon => cannon_moves(board, side, square),
                            _ => palace_moves(board, side, square, piece.kind),
                        };
                        append_all(&mut moves, piece_moves);
                    }
                },
                None => {},
            }
            proof {
                assert(moves@ =~= candidates_up_to(*board, side, rank as int, board.width as int)
                    + row_candidates(*board, side, rank as int, file + 1));
            }
            file = file + 1;
        }
        rank = rank + 1;
    }
    if moves.len() == 0 {
        match default_hold_move(board, side) {
            Some(pass_move) => {
                moves.push(pass_move);
            },
            None => {},
        }
    }
    proof {
        assert(moves@ =~= engine_candidates(*board, side));
    }
    moves
}

/// Scans the board in rank-major order for the first piece of `side`
/// and builds the zero-score hold pseudo-move on its square.
pub fn default_hold_move(board: &BoardState, side: PlayerSide) -> (r: Option<MoveCandidate>)
    ensures
        r == hold_candidate(*board, side),
{
    let mut rank: u8 = 0;
    while rank < board.height
        invariant
            rank <= board.height,
            first_owned_from(*board, side, 0, 0) == first_owned_from(*board, side, 0, rank as int),
        decreases board.height - rank,
    {
        let mut file: u8 = 0;
        while file < board.width
            invariant
                rank < board.height,
                file <= board.width,
                first_owned_from(*board, side, 0, 0) == first_owned_from(
                    *board,
                    side,
                    file as int,
                    rank as int,
                ),
            decreases board.width - file,
        {
            let square = Square { file, rank };
            match board.piece_at(square) {
                Some(piece) => {
                    if piece.owner == side {
                        return Some(
                            MoveCandidate {
                                mv: Move {
                                    from: square,
                                    to: square,
                                    promotion: None,
                                    confidence: Some(0),
                                },
                                score: 0,
                                depth: 0,
                            },
                        );
                    }
                },
                None => {},
            }
            file = file + 1;
        }
        rank = rank + 1;
    }
    None
}

/// Whether a candidate list is sorted by descending score.
pub open spec fn sorted_desc(s: Seq<MoveCandidate>) -> bool {
    forall|i: int, j: int| 0 <= i < j < s.len() ==> s[i].score >= s[j].score
}

/// Inserts `x` after every element whose score is at least `x`'s: the
/// insertion step of a stable descending sort.
pub open spec fn insert_desc(s: Seq<MoveCandidate>, x: MoveCandidate) -> Seq<MoveCandidate>
    decreases s.len(),
{
    if s.len() == 0 {
        seq![x]
    } else if s.last().score >= x.score {
        s.push(x)
    } else {
        insert_desc(s.drop_last(), x).push(s.last())
    }
}

/// The stable descending sort of a candidate list: elements in
/// descending score order, elements of equal score in their original
/// order.
pub open spec fn sort_desc(s: Seq<MoveCandidate>) -> Seq<MoveCandidate>
    decreases s.len(),
{
    if s.len() == 0 {
        Seq::empty()
    } else {
        insert_desc(sort_desc(s.drop_last()), s.last())
    }
}

/// Inserting into a sorted list at the boundary position `j` — every
/// element before `j` scoring at least `x`, every element from `j` on
/// scoring less — splices `x` in at `j`.
proof fn lemma_insert_desc_at(p: Seq<MoveCandidate>, x: MoveCandidate, j: int)
    requires
        0 <= j <= p.len(),
        forall|k: int| j <= k < p.len() ==> p[k].score < x.score,
        j > 0 ==> p[j - 1].score >= x.score,
    ensures
        insert_desc(p, x) == p.take(j).push(x) + p.skip(j),
    decreases p.len() - j,
{
    if j == p.len() {
        if p.len() == 0 {
            assert(insert_desc(p, x) =~= p.take(j).push(x) + p.skip(j));
        } else {
            assert(p.last().score >= x.score);
            assert(insert_desc(p, x) =~= p.take(j).push(x) + p.skip(j));
        }
    } else {
        assert(p.last().score < x.score);
        lemma_insert_desc_at(p.drop_last(), x, j);
        assert(insert_desc(p.drop_last(), x).push(p.last()) =~= p.take(j).push(x) + p.skip(j));
    }
}

/// Insertion preserves descending sortedness; every element of the
/// result is `x` or comes from the input.
proof fn lemma_insert_desc_sorted(p: Seq<MoveCandidate>, x: MoveCandidate)
    requires
        sorted_desc(p),
    ensures
        sorted_desc(insert_desc(p, x)),
        insert_desc(p, x).len() == p.len() + 1,
        forall|i: int|
            0 <= i < insert_desc(p, x).len() ==> (insert_desc(p, x)[i] == x || p.contains(
                #[trigger] insert_desc(p, x)[i],
            )),
    decreases p.len(),
{
    let r = insert_desc(p, x);
    if p.len() == 0 {
    } else if p.last().score >= x.score {
        assert forall|i: int, k: int| 0 <= i < k < r.len() implies r[i].score >= r[k].score by {
            if k == p.len() {
                assert(p[i].score >= p.last().score);
            }
        }
    } else {
        let q = insert_desc(p.drop_last(), x);
        assert(sorted_desc(p.drop_last()));
        lemma_insert_desc_sorted(p.drop_last(), x);
        assert forall|i: int, k: int| 0 <= i < k < r.len() implies r[i].score >= r[k].score by {
            if k == q.len() {
                if q[i] == x {
                } else {
                    let w = choose|w: int| 0 <= w < p.drop_last().len() && p.drop_last()[w] == q[i];
                    assert(p[w].score >= p.last().score);
                }
            }
        }
        assert forall|i: int| 0 <= i < r.len() implies (r[i] == x || p.contains(#[trigger] r[i]))
            by {
            if i < q.len() {
                if q[i] != x {
                    let w = choose|w: int| 0 <= w < p.drop_last().len() && p.drop_last()[w] == q[i];
                    assert(p[w] == r[i]);
                }
            } else {
                assert(r[i] == p.last());
                assert(p[p.len() - 1] == p.last());
            }
        }
    }
}

proof fn lemma_insert_desc_multiset(s: Seq<MoveCandidate>, x: MoveCandidate)
    ensures
        insert_desc(s, x).to_multiset() == s.to_multiset().insert(x),
    decreases s.len(),
{
    broadcast use vstd::seq_lib::group_to_multiset_ensures;

    if s.len() == 0 {
        assert(seq![x] =~= Seq::<MoveCandidate>::empty().push(x));
        assert(s.to_multiset() =~= Multiset::<MoveCandidate>::empty());
        assert(insert_desc(s, x).to_multiset() =~= s.to_multiset().insert(x));
    } else if s.last().score >= x.score {
        assert(insert_desc(s, x).to_multiset() =~= s.to_multiset().insert(x));
    } else {
        lemma_insert_desc_multiset(s.drop_last(), x);
        assert(s =~= s.drop_last().push(s.last()));
        assert(s.to_multiset() =~= s.drop_last().to_multiset().insert(s.last()));
        assert(insert_desc(s, x).to_multiset() =~= s.drop_last().to_multiset().insert(x).insert(
            s.last(),
        ));
        assert(s.drop_last().to_multiset().insert(x).insert(s.last()) =~= s.to_multiset().insert(
            x,
        ));
    }
}

/// The stable sort keeps exactly the input's candidates: its result is
/// a permutation of what it was given.
pub proof fn lemma_sort_desc_permutes(s: Seq<MoveCandidate>)
    ensures
        sort_desc(s).to_multiset() == s.to_multiset(),
    decreases s.len(),
{
    broadcast use vstd::seq_lib::group_to_multiset_ensures;

    if s.len() > 0 {
        lemma_sort_desc_permutes(s.drop_last());
        lemma_insert_desc_multiset(sort_desc(s.drop_last()), s.last());
        assert(s =~= s.drop_last().push(s.last()));
        assert(s.to_multiset() =~= s.drop_last().to_multiset().insert(s.last()));
    }
}

/// The stable sort is sorted by descending score.
pub proof fn lemma_sort_desc_sorted(s: Seq<MoveCandidate>)
    ensures
        sorted_desc(sort_desc(s)),
        sort_desc(s).len() == s.len(),
    decreases s.len(),
{
    if s.len() > 0 {
        lemma_sort_desc_sorted(s.drop_last());
        lemma_insert_desc_sorted(sort_desc(s.drop_last()), s.last());
    }
}

/// Sorts candidates by descending score with a stable insertion sort:
/// candidates of equal score keep their original order.
fn sort_candidates(input: Vec<MoveCandidate>) -> (out: Vec<MoveCandidate>)
    ensures
        out@ == sort_desc(input@),
        sorted_desc(out@),
{
    let mut out: Vec<MoveCandidate> = Vec::new();
    let n = input.len();
    let mut i: usize = 0;
    while i < n
        invariant
            i <= n,
            n == input@.len(),
            out@ == sort_desc(input@.take(i as int)),
            sorted_desc(out@),
        decreases n - i,
    {
        let x = input[i];
        let ghost pre = out@;
        let mut j: usize = out.len();
        while j > 0 && out[j - 1].score < x.score
            invariant
                j <= out@.len(),
                out@ == pre,
                forall|k: int| j <= k < out@.len() ==> out@[k].score < x.score,
            decreases j,
        {
            j = j - 1;
        }
        out.insert(j, x);
        proof {
            lemma_insert_desc_at(pre, x, j as int);
            assert(out@ =~= pre.take(j as int).push(x) + pre.skip(j as int));
            assert(input@.take(i + 1).drop_last() =~= input@.take(i as int));
            assert(input@.take(i + 1).last() == input@[i as int]);
            assert(out@ == insert_desc(pre, x));
            lemma_insert_desc_sorted(pre, x);
        }
        i = i + 1;
    }
    proof {
        assert(input@.take(n as int) == input@);
    }
    out
}

/// A decision engine proposes a move for a position. Any implementation
/// exposing these two operations may substitute for the rule-based one;
/// nothing is promised of an arbitrary engine's output.
pub trait GameEngine: Sized {
    /// Startup hook, called once during boot.
    fn warm_up(&mut self) -> Result<(), MinervaError>;

    /// Proposes a decision for the position in `ctx`.
    fn evaluate_position(&self, ctx: &TurnContext) -> Result<EngineDecision, MinervaError>;
}

/// Simple deterministic engine implementing the per-kind candidate
/// rules with one-ply greedy evaluation.
pub struct RuleBasedEngine;

impl RuleBasedEngine {
    pub fn new() -> RuleBasedEngine {
        RuleBasedEngine
    }
}

impl GameEngine for RuleBasedEngine {
    /// This engine needs no warm-up and always succeeds.
    fn warm_up(&mut self) -> (r: Result<(), MinervaError>)
        ensures
            r is Ok,
    {
        Ok(())
    }

    /// Evaluates a position: enumerates the candidates of `ctx.side`,
    /// sorts them by descending score keeping ties in enumeration
    /// order, and proposes the top candidate. When the side has no
    /// piece at all there are no candidates and no best move.
    fn evaluate_position(&self, ctx: &TurnContext) -> (r: Result<EngineDecision, MinervaError>)
        ensures
            r matches Ok(d) && {
                &&& d.candidates@ == sort_desc(engine_candidates(ctx.snapshot.board, ctx.side))
                &&& sorted_desc(d.candidates@)
                &&& d.best_move == (if d.candidates@.len() > 0 {
                    Some(d.candidates@[0].mv)
                } else {
                    None::<Move>
                })
                &&& d.searched_nodes == 0
                &&& d.depth == 1
                &&& d.duration_ms == 5
                &&& (forall|sq: Square|
                    #[trigger] ctx.snapshot.board.spec_piece_at(sq) matches Some(p) ==> p.owner
                        != ctx.side) ==> (d.candidates@.len() == 0 && d.best_move is None)
            },
    {
        proof {
            if forall|sq: Square|
                #[trigger] ctx.snapshot.board.spec_piece_at(sq) matches Some(p) ==> p.owner
                    != ctx.side {
                crate::engine_laws::lemma_no_pieces_no_candidates(ctx.snapshot.board, ctx.side);
                assert(sort_desc(Seq::<MoveCandidate>::empty()) =~= Seq::<MoveCandidate>::empty());
            }
        }
        let candidates = sort_candidates(generate_candidates(&ctx.snapshot.board, ctx.side));
        let best_move = if candidates.len() > 0 {
            Some(candidates[0].mv)
        } else {
            None
        };
        Ok(
            EngineDecision {
                best_move,
                candidates,
                searched_nodes: 0,
                depth: 1,
                duration_ms: 5,
            },
        )
    }
}

/// Builds an engine-subsystem error carrying `message`.
pub fn engine_error(message: &str) -> (r: MinervaError)
    ensures
        r matches MinervaError::Engine(m) && m@ == message@,
{
    MinervaError::Engine(message.to_owned())
}

} // verus!
