//! Laws of the board model: diffing a board against itself, symmetry of
//! diffing, and move inference on a single-move diff.

use vstd::prelude::*;

use crate::board::BoardDiff;
use crate::board::BoardState;
use crate::board::Piece;
use crate::board::Square;

verus! {

/// A diff entry with its before and after sides exchanged.
pub open spec fn swap_diff(d: BoardDiff) -> BoardDiff {
    BoardDiff { square: d.square, before: d.after, after: d.before }
}

proof fn lemma_row_diffs_self(b: BoardState, rank: int, file_count: int)
    ensures
        BoardState::row_diffs(b, b, rank, file_count) == Seq::<BoardDiff>::empty(),
    decreases file_count,
{
    if file_count > 0 {
        lemma_row_diffs_self(b, rank, file_count - 1);
        assert(BoardState::row_diffs(b, b, rank, file_count) =~= Seq::<BoardDiff>::empty());
    }
}

proof fn lemma_diffs_up_to_self(b: BoardState, rank_count: int, file_count: int)
    ensures
        BoardState::diffs_up_to(b, b, rank_count, file_count) == Seq::<BoardDiff>::empty(),
    decreases rank_count,
{
    if rank_count > 0 {
        lemma_diffs_up_to_self(b, rank_count - 1, file_count);
        lemma_row_diffs_self(b, rank_count - 1, file_count);
        assert(BoardState::diffs_up_to(b, b, rank_count, file_count) =~= Seq::<
            BoardDiff,
        >::empty());
    }
}

/// Diffing a board against itself yields nothing.
pub proof fn lemma_differences_reflexive(b: BoardState)
    ensures
        BoardState::spec_differences(b, b) == Seq::<BoardDiff>::empty(),
{
    lemma_diffs_up_to_self(
        b,
        b.height as int,
        b.width as int,
    );
}

proof fn lemma_row_diffs_swap(a: BoardState, b: BoardState, rank: int, file_count: int)
    ensures
        BoardState::row_diffs(b, a, rank, file_count) == BoardState::row_diffs(
            a,
            b,
            rank,
            file_count,
        ).map_values(|d: BoardDiff| swap_diff(d)),
    decreases file_count,
{
    if file_count <= 0 {
        assert(BoardState::row_diffs(b, a, rank, file_count) =~= BoardState::row_diffs(
            a,
            b,
            rank,
            file_count,
        ).map_values(|d: BoardDiff| swap_diff(d)));
    } else {
        lemma_row_diffs_swap(a, b, rank, file_count - 1);
        assert(BoardState::row_diffs(b, a, rank, file_count) =~= BoardState::row_diffs(
            a,
            b,
            rank,
            file_count,
        ).map_values(|d: BoardDiff| swap_diff(d)));
    }
}

proof fn lemma_diffs_up_to_swap(a: BoardState, b: BoardState, rank_count: int, file_count: int)
    ensures
        BoardState::diffs_up_to(b, a, rank_count, file_count) == BoardState::diffs_up_to(
            a,
            b,
            rank_count,
            file_count,
        ).map_values(|d: BoardDiff| swap_diff(d)),
    decreases rank_count,
{
    if rank_count <= 0 {
        assert(BoardState::diffs_up_to(b, a, rank_count, file_count) =~= BoardState::diffs_up_to(
            a,
            b,
            rank_count,
            file_count,
        ).map_values(|d: BoardDiff| swap_diff(d)));
    } else {
        lemma_diffs_up_to_swap(a, b, rank_count - 1, file_count);
        lemma_row_diffs_swap(a, b, rank_count - 1, file_count);
        assert(BoardState::diffs_up_to(b, a, rank_count, file_count) =~= BoardState::diffs_up_to(
            a,
            b,
            rank_count,
            file_count,
        ).map_values(|d: BoardDiff| swap_diff(d)));
    }
}

/// Diffing in the other direction yields the same entries, in the same
/// order, with before and after exchanged; in particular both directions
/// report the same number of differences.
pub proof fn lemma_differences_symmetric(a: BoardState, b: BoardState)
    ensures
        BoardState::spec_differences(b, a) == BoardState::spec_differences(a, b).map_values(
            (|d: BoardDiff| swap_diff(d)),
        ),
        BoardState::spec_differences(b, a).len() == BoardState::spec_differences(a, b).len(),
{
    let w = if a.width <= b.width {
        a.width as int
    } else {
        b.width as int
    };
    let h = if a.height <= b.height {
        a.height as int
    } else {
        b.height as int
    };
    lemma_diffs_up_to_swap(a, b, h, w);
}

/// The inference scan started from an arbitrary running state.
pub open spec fn infer_fold(
    st: (Option<Square>, Option<Square>, Option<Piece>, Option<Piece>),
    s: Seq<BoardDiff>,
) -> (Option<Square>, Option<Square>, Option<Piece>, Option<Piece>)
    decreases s.len(),
{
    if s.len() == 0 {
        st
    } else {
        BoardState::infer_step(infer_fold(st, s.drop_last()), s.last())
    }
}

proof fn lemma_infer_state_is_fold(s: Seq<BoardDiff>)
    ensures
        BoardState::infer_state(s) == infer_fold(
            (
                None::<Square>,
                None::<Square>,
                None::<Piece>,
                None::<Piece>,
            ),
            s,
        ),
    decreases s.len(),
{
    if s.len() > 0 {
        lemma_infer_state_is_fold(s.drop_last());
    }
}

proof fn lemma_infer_fold_append(
    st: (Option<Square>, Option<Square>, Option<Piece>, Option<Piece>),
    s: Seq<BoardDiff>,
    t: Seq<BoardDiff>,
)
    ensures
        infer_fold(st, s + t) == infer_fold(infer_fold(st, s), t),
    decreases t.len(),
{
    if t.len() == 0 {
        assert(s + t =~= s);
    } else {
        assert((s + t).drop_last() =~= s + t.drop_last());
        assert((s + t).last() == t.last());
        lemma_infer_fold_append(st, s, t.drop_last());
    }
}

/// The move-shape hypothesis: `b` is `a` after the single piece `p` moved
/// from `s1` to `s2`, with nothing captured.
pub open spec fn single_move_shape(
    a: BoardState,
    b: BoardState,
    s1: Square,
    s2: Square,
    p: Piece,
) -> bool {
    &&& a.wf()
    &&& a.in_bounds(s1)
    &&& a.in_bounds(s2)
    &&& s1 != s2
    &&& a.spec_piece_at(s1) == Some(p)
    &&& a.spec_piece_at(s2) is None
    &&& b.width == a.width
    &&& b.height == a.height
    &&& b.pieces@ == a.pieces@.update(a.spec_index_of(s2), Some(p)).update(
        a.spec_index_of(s1),
        None,
    )
}

proof fn lemma_single_move_cell(
    a: BoardState,
    b: BoardState,
    s1: Square,
    s2: Square,
    p: Piece,
    file: int,
    rank: int,
)
    requires
        single_move_shape(a, b, s1, s2, p),
        0 <= file < a.width,
        0 <= rank < a.height,
    ensures
        BoardState::diff_at(a, b, file, rank) == (if (Square {
            file: file as u8,
            rank: rank as u8,
        }) == s1 {
            seq![BoardDiff { square: s1, before: Some(p), after: None }]
        } else if (Square { file: file as u8, rank: rank as u8 }) == s2 {
            seq![BoardDiff { square: s2, before: None, after: Some(p) }]
        } else {
            Seq::<BoardDiff>::empty()
        }),
{
    let sq = Square { file: file as u8, rank: rank as u8 };
    a.lemma_index_in_range(sq);
    a.lemma_index_in_range(s1);
    a.lemma_index_in_range(s2);
    if a.spec_index_of(s1) == a.spec_index_of(s2) {
        a.lemma_index_injective(s1, s2);
    }
    if sq != s1 && a.spec_index_of(sq) == a.spec_index_of(s1) {
        a.lemma_index_injective(sq, s1);
    }
    if sq != s2 && a.spec_index_of(sq) == a.spec_index_of(s2) {
        a.lemma_index_injective(sq, s2);
    }
    if sq == s1 {
        assert(BoardState::diff_at(a, b, file, rank) =~= seq![
            BoardDiff { square: s1, before: Some(p), after: None },
        ]);
    } else if sq == s2 {
        assert(BoardState::diff_at(a, b, file, rank) =~= seq![
            BoardDiff { square: s2, before: None, after: Some(p) },
        ]);
    } else {
        assert(b.spec_piece_at(sq) == a.spec_piece_at(sq));
    }
}

proof fn lemma_single_move_row(
    a: BoardState,
    b: BoardState,
    s1: Square,
    s2: Square,
    p: Piece,
    rank: int,
    file_count: int,
    st: (Option<Square>, Option<Square>, Option<Piece>, Option<Piece>),
)
    requires
        single_move_shape(a, b, s1, s2, p),
        0 <= rank < a.height,
        file_count <= a.width,
    ensures
        infer_fold(st, BoardState::row_diffs(a, b, rank, file_count)) == (
        {
            let hit1 = s1.rank == rank && s1.file < file_count;
            let hit2 = s2.rank == rank && s2.file < file_count;
            (
                if hit1 {
                    Some(s1)
                } else {
                    st.0
                },
                if hit2 {
                    Some(s2)
                } else {
                    st.1
                },
                if hit1 || hit2 {
                    Some(p)
                } else {
                    st.2
                },
                st.3,
            )
        }),
    decreases file_count,
{
    if file_count <= 0 {
    } else {
        lemma_single_move_row(a, b, s1, s2, p, rank, file_count - 1, st);
        lemma_single_move_cell(a, b, s1, s2, p, file_count - 1, rank);
        lemma_infer_fold_append(
            st,
            BoardState::row_diffs(a, b, rank, file_count - 1),
            BoardState::diff_at(a, b, file_count - 1, rank),
        );
        let mid = infer_fold(st, BoardState::row_diffs(a, b, rank, file_count - 1));
        let cell = BoardState::diff_at(a, b, file_count - 1, rank);
        if cell.len() > 0 {
            assert(cell.drop_last() =~= Seq::<BoardDiff>::empty());
            assert(infer_fold(mid, cell.drop_last()) == mid);
            assert(infer_fold(mid, cell) == BoardState::infer_step(mid, cell.last()));
        }
        let sq = Square { file: (file_count - 1) as u8, rank: rank as u8 };
        assert(sq.file == file_count - 1 && sq.rank == rank);
        if sq == s1 {
            assert(infer_fold(st, BoardState::row_diffs(a, b, rank, file_count))
                == BoardState::infer_step(mid, cell.last()));
        } else if sq == s2 {
            assert(infer_fold(st, BoardState::row_diffs(a, b, rank, file_count))
                == BoardState::infer_step(mid, cell.last()));
        } else {
            assert(s1.rank == rank ==> s1.file != file_count - 1);
            assert(s2.rank == rank ==> s2.file != file_count - 1);
            assert(infer_fold(st, BoardState::row_diffs(a, b, rank, file_count)) == mid);
        }
    }
}

proof fn lemma_single_move_ranks(
    a: BoardState,
    b: BoardState,
    s1: Square,
    s2: Square,
    p: Piece,
    rank_count: int,
    st: (Option<Square>, Option<Square>, Option<Piece>, Option<Piece>),
)
    requires
        single_move_shape(a, b, s1, s2, p),
        rank_count <= a.height,
    ensures
        infer_fold(st, BoardState::diffs_up_to(a, b, rank_count, a.width as int)) == (
        {
            let hit1 = s1.rank < rank_count;
            let hit2 = s2.rank < rank_count;
            (
                if hit1 {
                    Some(s1)
                } else {
                    st.0
                },
                if hit2 {
                    Some(s2)
                } else {
                    st.1
                },
                if hit1 || hit2 {
                    Some(p)
                } else {
                    st.2
                },
                st.3,
            )
        }),
    decreases rank_count,
{
    if rank_count <= 0 {
    } else {
        lemma_single_move_ranks(a, b, s1, s2, p, rank_count - 1, st);
        lemma_infer_fold_append(
            st,
            BoardState::diffs_up_to(a, b, rank_count - 1, a.width as int),
            BoardState::row_diffs(a, b, rank_count - 1, a.width as int),
        );
        lemma_single_move_row(
            a,
            b,
            s1,
            s2,
            p,
            rank_count - 1,
            a.width as int,
            infer_fold(st, BoardState::diffs_up_to(a, b, rank_count - 1, a.width as int)),
        );
    }
}

/// On the diff of a board against the same board with one piece moved to
/// an empty square, move inference reports exactly that origin, that
/// destination, that piece, and no capture.
pub proof fn lemma_infer_single_move(
    a: BoardState,
    b: BoardState,
    s1: Square,
    s2: Square,
    p: Piece,
)
    requires
        single_move_shape(a, b, s1, s2, p),
    ensures
        BoardState::spec_infer(BoardState::spec_differences(a, b)) == Some(
            (s1, s2, p, None::<Piece>),
        ),
{
    let diffs = BoardState::spec_differences(a, b);
    lemma_infer_state_is_fold(diffs);
    lemma_single_move_ranks(
        a,
        b,
        s1,
        s2,
        p,
        a.height as int,
        (None::<Square>, None::<Square>, None::<Piece>, None::<Piece>),
    );
}

} // verus!
