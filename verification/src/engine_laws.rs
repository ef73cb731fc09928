//! Laws of the move generator: the cannon's screen mechanic, the
//! horse's blocking leg, the soldier's river gate, and evaluation of a
//! position without pieces.

use vstd::prelude::*;

use crate::board::BoardState;
use crate::board::PlayerSide;
use crate::board::Square;
use crate::engine::candidate_for;
use crate::engine::cannon_ray;
use crate::engine::cell_candidates;
use crate::engine::candidates_up_to;
use crate::engine::dir_df;
use crate::engine::dir_dr;
use crate::engine::engine_candidates;
use crate::engine::first_owned_from;
use crate::engine::hold_candidate;
use crate::engine::horse_pattern;
use crate::engine::horse_targets;
use crate::engine::raw_candidates;
use crate::engine::river_crossed;
use crate::engine::row_candidates;
use crate::engine::soldier_targets;
use crate::engine::step_candidate;
use crate::engine::target_open;
use crate::engine::Direction;
use crate::game::MoveCandidate;

verus! {

/// The square one slide step past `sq`.
pub open spec fn ray_next(sq: Square, d: Direction) -> Option<Square> {
    sq.spec_offset(dir_df(d), dir_dr(d))
}

/// `target` lies at least one step past `cur` on the `d` ray, and every
/// square strictly between the two is empty.
pub open spec fn clear_path(b: BoardState, cur: Square, target: Square, d: Direction) -> bool
    decreases crate::engine::ray_measure(cur, d),
{
    match ray_next(cur, d) {
        Some(next) => if next == target {
            true
        } else {
            b.spec_piece_at(next) is None && clear_path(b, next, target, d)
        },
        None => false,
    }
}

proof fn lemma_cannon_config_ray(
    b: BoardState,
    side: PlayerSide,
    from: Square,
    cur: Square,
    d: Direction,
    w: Square,
    m: Square,
    c: Square,
)
    requires
        clear_path(b, cur, w, d),
        b.spec_piece_at(w) is Some,
        ray_next(w, d) == Some(m),
        b.spec_piece_at(m) is None,
        ray_next(m, d) == Some(c),
        b.spec_piece_at(c) matches Some(p) && p.owner != side,
    ensures
        cannon_ray(b, side, from, cur, d, false) == seq![
            candidate_for(from, m, None),
            candidate_for(from, c, b.spec_piece_at(c)),
        ],
    decreases crate::engine::ray_measure(cur, d),
{
    let next = ray_next(cur, d)->0;
    if next == w {
        assert(cannon_ray(b, side, from, m, d, true) =~= seq![
            candidate_for(from, c, b.spec_piece_at(c)),
        ]);
        assert(cannon_ray(b, side, from, w, d, true) =~= seq![
            candidate_for(from, m, None),
            candidate_for(from, c, b.spec_piece_at(c)),
        ]);
    } else {
        lemma_cannon_config_ray(b, side, from, next, d, w, m, c);
    }
}

/// Cannon law: on a ray whose first piece (the screen) `w` is followed
/// by an empty square `m` and then an enemy piece at `c`, the ray's
/// destinations are exactly the quiet move to `m` and the capture at
/// `c` — nothing before the screen, nothing past the second piece.
pub proof fn lemma_cannon_screen_ray(
    b: BoardState,
    side: PlayerSide,
    from: Square,
    d: Direction,
    w: Square,
    m: Square,
    c: Square,
)
    requires
        clear_path(b, from, w, d),
        b.spec_piece_at(w) is Some,
        ray_next(w, d) == Some(m),
        b.spec_piece_at(m) is None,
        ray_next(m, d) == Some(c),
        b.spec_piece_at(c) matches Some(p) && p.owner != side,
    ensures
        cannon_ray(b, side, from, from, d, false) == seq![
            candidate_for(from, m, None),
            candidate_for(from, c, b.spec_piece_at(c)),
        ],
{
    lemma_cannon_config_ray(b, side, from, from, d, w, m, c);
}

/// No square from just past `cur` to the board edge holds a piece.
pub open spec fn ray_empty_to_edge(b: BoardState, cur: Square, d: Direction) -> bool
    decreases crate::engine::ray_measure(cur, d),
{
    match ray_next(cur, d) {
        Some(next) => b.spec_piece_at(next) is None && ray_empty_to_edge(b, next, d),
        None => true,
    }
}

/// Cannon law, general form, for any ray: every candidate starts at the
/// cannon's square and lands on an open square — so neither the screen
/// nor any friendly piece is ever captured — and only the final
/// candidate may land on a piece: the ray terminates at its capture,
/// offering nothing beyond the second occupied square.
pub proof fn lemma_cannon_ray_law(
    b: BoardState,
    side: PlayerSide,
    from: Square,
    cur: Square,
    d: Direction,
    screen: bool,
)
    ensures
        forall|i: int|
            0 <= i < cannon_ray(b, side, from, cur, d, screen).len() ==> {
                let c = #[trigger] cannon_ray(b, side, from, cur, d, screen)[i];
                c.mv.from == from && target_open(b, side, c.mv.to)
            },
        forall|i: int|
            0 <= i < cannon_ray(b, side, from, cur, d, screen).len() - 1 ==> b.spec_piece_at(
                (#[trigger] cannon_ray(b, side, from, cur, d, screen)[i]).mv.to,
            ) is None,
    decreases crate::engine::ray_measure(cur, d),
{
    let r = cannon_ray(b, side, from, cur, d, screen);
    match ray_next(cur, d) {
        Some(next) => {
            match b.spec_piece_at(next) {
                Some(p) => {
                    if !screen {
                        lemma_cannon_ray_law(b, side, from, next, d, true);
                    }
                },
                None => {
                    lemma_cannon_ray_law(b, side, from, next, d, screen);
                    if screen {
                        let rest = cannon_ray(b, side, from, next, d, true);
                        assert(r == seq![candidate_for(from, next, None)] + rest);
                        assert forall|i: int| 0 <= i < r.len() implies {
                            let c = #[trigger] r[i];
                            c.mv.from == from && target_open(b, side, c.mv.to)
                        } by {
                            if i > 0 {
                                assert(r[i] == rest[i - 1]);
                            }
                        }
                        assert forall|i: int| 0 <= i < r.len() - 1 implies b.spec_piece_at(
                            (#[trigger] r[i]).mv.to,
                        ) is None by {
                            if i > 0 {
                                assert(r[i] == rest[i - 1]);
                            }
                        }
                    }
                },
            }
        },
        None => {},
    }
}

/// Cannon law, degenerate form: a ray that holds no piece at all has no
/// screen to jump, so the cannon gets no destination on it.
pub proof fn lemma_cannon_no_screen(
    b: BoardState,
    side: PlayerSide,
    from: Square,
    cur: Square,
    d: Direction,
)
    requires
        ray_empty_to_edge(b, cur, d),
    ensures
        cannon_ray(b, side, from, cur, d, false) == Seq::<MoveCandidate>::empty(),
    decreases crate::engine::ray_measure(cur, d),
{
    match ray_next(cur, d) {
        Some(next) => {
            lemma_cannon_no_screen(b, side, from, next, d);
        },
        None => {},
    }
}

/// Soldier law: a sideways candidate (one whose destination stays on
/// the soldier's own rank) appears only once the soldier has crossed
/// the river; and once it has, each open sideways square is offered.
pub proof fn lemma_soldier_sideways_gated(b: BoardState, side: PlayerSide, from: Square)
    ensures
        !river_crossed(side, from.rank as int, b.height as int) ==> forall|i: int|
            0 <= i < soldier_targets(b, side, from).len() ==> #[trigger] soldier_targets(
                b,
                side,
                from,
            )[i].mv.to.rank != from.rank,
        river_crossed(side, from.rank as int, b.height as int) ==> forall|df: int|
            (df == -1 || df == 1) ==> (#[trigger] from.spec_offset(df, 0) matches Some(to) ==> (
            target_open(b, side, to) ==> soldier_targets(b, side, from).contains(
                candidate_for(from, to, b.spec_piece_at(to)),
            ))),
{
    let t = soldier_targets(b, side, from);
    let fwd = step_candidate(b, side, from, 0, crate::engine::forward_of(side));
    if !river_crossed(side, from.rank as int, b.height as int) {
        assert forall|i: int| 0 <= i < t.len() implies #[trigger] t[i].mv.to.rank != from.rank by {
            assert(t[i] == fwd[i]);
        }
    } else {
        let lft = step_candidate(b, side, from, -1, 0);
        assert forall|df: int| (df == -1 || df == 1) implies (#[trigger] from.spec_offset(df, 0)
            matches Some(to) ==> (target_open(b, side, to) ==> t.contains(
            candidate_for(from, to, b.spec_piece_at(to)),
        ))) by {
            match from.spec_offset(df, 0) {
                Some(to) => {
                    if target_open(b, side, to) {
                        let c = candidate_for(from, to, b.spec_piece_at(to));
                        if df == -1 {
                            assert(t[fwd.len() as int] == c);
                        } else {
                            assert(t[fwd.len() + lft.len() as int] == c);
                        }
                    }
                },
                None => {},
            }
        }
    }
}

/// The eight leg-then-diagonal offset patterns of the horse.
pub open spec fn is_horse_pattern(ldf: int, ldr: int, ddf: int, ddr: int) -> bool {
    ||| (ldf, ldr, ddf, ddr) == (1int, 0int, 1int, 1int)
    ||| (ldf, ldr, ddf, ddr) == (1int, 0int, 1int, -1int)
    ||| (ldf, ldr, ddf, ddr) == (-1int, 0int, -1int, 1int)
    ||| (ldf, ldr, ddf, ddr) == (-1int, 0int, -1int, -1int)
    ||| (ldf, ldr, ddf, ddr) == (0int, 1int, 1int, 1int)
    ||| (ldf, ldr, ddf, ddr) == (0int, 1int, -1int, 1int)
    ||| (ldf, ldr, ddf, ddr) == (0int, -1int, 1int, -1int)
    ||| (ldf, ldr, ddf, ddr) == (0int, -1int, -1int, -1int)
}

proof fn lemma_horse_pattern_shape(
    b: BoardState,
    side: PlayerSide,
    from: Square,
    ldf: int,
    ldr: int,
    ddf: int,
    ddr: int,
)
    ensures
        horse_pattern(b, side, from, ldf, ldr, ddf, ddr).len() <= 1,
        forall|k: int|
            0 <= k < horse_pattern(b, side, from, ldf, ldr, ddf, ddr).len() ==> {
                let to = #[trigger] horse_pattern(b, side, from, ldf, ldr, ddf, ddr)[k].mv.to;
                to.file == from.file + ldf + ddf && to.rank == from.rank + ldr + ddr
            },
        horse_pattern(b, side, from, ldf, ldr, ddf, ddr).len() == 1 ==> (from.spec_offset(ldf, ldr)
            matches Some(blk) && b.spec_piece_at(blk) is None),
{
}

/// Horse law: when the orthogonal leg square of a pattern is occupied,
/// no candidate of the horse lands on that pattern's destination, even
/// if the destination square itself is open.
pub proof fn lemma_horse_leg_blocked(
    b: BoardState,
    side: PlayerSide,
    from: Square,
    ldf: int,
    ldr: int,
    ddf: int,
    ddr: int,
)
    requires
        is_horse_pattern(ldf, ldr, ddf, ddr),
        from.spec_offset(ldf, ldr) matches Some(blk) && b.spec_piece_at(blk) is Some,
    ensures
        forall|i: int|
            0 <= i < horse_targets(b, side, from).len() ==> {
                let to = #[trigger] horse_targets(b, side, from)[i].mv.to;
                to.file != from.file + ldf + ddf || to.rank != from.rank + ldr + ddr
            },
{
    let t = horse_targets(b, side, from);
    lemma_horse_pattern_shape(b, side, from, 1, 0, 1, 1);
    lemma_horse_pattern_shape(b, side, from, 1, 0, 1, -1);
    lemma_horse_pattern_shape(b, side, from, -1, 0, -1, 1);
    lemma_horse_pattern_shape(b, side, from, -1, 0, -1, -1);
    lemma_horse_pattern_shape(b, side, from, 0, 1, 1, 1);
    lemma_horse_pattern_shape(b, side, from, 0, 1, -1, 1);
    lemma_horse_pattern_shape(b, side, from, 0, -1, 1, -1);
    lemma_horse_pattern_shape(b, side, from, 0, -1, -1, -1);
    assert(horse_pattern(b, side, from, ldf, ldr, ddf, ddr).len() == 0);
    assert forall|i: int| 0 <= i < t.len() implies {
        let to = #[trigger] t[i].mv.to;
        to.file != from.file + ldf + ddf || to.rank != from.rank + ldr + ddr
    } by {
        assert(t[i].mv.to == t[i].mv.to);
    }
}

proof fn lemma_row_candidates_empty(b: BoardState, side: PlayerSide, rank: int, file_count: int)
    requires
        forall|sq: Square| #[trigger] b.spec_piece_at(sq) matches Some(p) ==> p.owner != side,
    ensures
        row_candidates(b, side, rank, file_count) == Seq::<MoveCandidate>::empty(),
    decreases file_count,
{
    if file_count > 0 {
        lemma_row_candidates_empty(b, side, rank, file_count - 1);
        let sq = Square { file: (file_count - 1) as u8, rank: rank as u8 };
        assert(cell_candidates(b, side, file_count - 1, rank) =~= Seq::<MoveCandidate>::empty());
        assert(row_candidates(b, side, rank, file_count) =~= Seq::<MoveCandidate>::empty());
    }
}

proof fn lemma_candidates_up_to_empty(
    b: BoardState,
    side: PlayerSide,
    rank_count: int,
    file_count: int,
)
    requires
        forall|sq: Square| #[trigger] b.spec_piece_at(sq) matches Some(p) ==> p.owner != side,
    ensures
        candidates_up_to(b, side, rank_count, file_count) == Seq::<MoveCandidate>::empty(),
    decreases rank_count,
{
    if rank_count > 0 {
        lemma_candidates_up_to_empty(b, side, rank_count - 1, file_count);
        lemma_row_candidates_empty(b, side, rank_count - 1, file_count);
        assert(candidates_up_to(b, side, rank_count, file_count) =~= Seq::<
            MoveCandidate,
        >::empty());
    }
}

proof fn lemma_first_owned_none(b: BoardState, side: PlayerSide, file: int, rank: int)
    requires
        forall|sq: Square| #[trigger] b.spec_piece_at(sq) matches Some(p) ==> p.owner != side,
    ensures
        first_owned_from(b, side, file, rank) is None,
    decreases b.height - rank, b.width - file,
{
    if rank >= b.height {
    } else if file >= b.width {
        lemma_first_owned_none(b, side, 0, rank + 1);
    } else {
        lemma_first_owned_none(b, side, file + 1, rank);
    }
}

/// A side without a single piece on the board has no candidate moves
/// and no hold pseudo-move either.
pub proof fn lemma_no_pieces_no_candidates(b: BoardState, side: PlayerSide)
    requires
        forall|sq: Square| #[trigger] b.spec_piece_at(sq) matches Some(p) ==> p.owner != side,
    ensures
        engine_candidates(b, side) == Seq::<MoveCandidate>::empty(),
        raw_candidates(b, side) == Seq::<MoveCandidate>::empty(),
        hold_candidate(b, side) is None,
{
    lemma_candidates_up_to_empty(b, side, b.height as int, b.width as int);
    lemma_first_owned_none(b, side, 0, 0);
}

} // verus!
