//! Board model: squares, pieces, dense board state, snapshot diffing and
//! move inference.

use vstd::prelude::*;

verus! {

/// Default board width in files.
pub const DEFAULT_WIDTH: u8 = 9;

/// Default board height in ranks.
pub const DEFAULT_HEIGHT: u8 = 10;

/// The two players. `Blue` moves up the board (towards higher ranks),
/// `Red` moves down.
#[derive(Debug, Clone, Copy, PartialEq, Eq, Structural)]
pub enum PlayerSide {
    Blue,
    Red,
}

impl PlayerSide {
    /// The other player.
    pub open spec fn spec_opponent(self) -> PlayerSide {
        match self {
            PlayerSide::Blue => PlayerSide::Red,
            PlayerSide::Red => PlayerSide::Blue,
        }
    }

    pub fn opponent(self) -> (r: PlayerSide)
        ensures
            r == self.spec_opponent(),
            r.spec_opponent() == self,
    {
        match self {
            PlayerSide::Blue => PlayerSide::Red,
            PlayerSide::Red => PlayerSide::Blue,
        }
    }
}

/// Piece kind in Korean Janggi; a closed enumeration.
#[derive(Debug, Clone, Copy, PartialEq, Eq, Structural)]
pub enum PieceKind {
    General,
    Guard,
    Elephant,
    Horse,
    Chariot,
    Cannon,
    Soldier,
}

/// Board coordinate: a file/rank pair, 0-indexed.
#[derive(Debug, Clone, Copy, PartialEq, Eq, Structural)]
pub struct Square {
    pub file: u8,
    pub rank: u8,
}

impl Square {
    pub fn new(file: u8, rank: u8) -> (r: Square)
        ensures
            r.file == file,
            r.rank == rank,
    {
        Square { file, rank }
    }

    /// The square reached by moving `df` files and `dr` ranks, or `None`
    /// when that leaves the default 9 by 10 grid.
    pub open spec fn spec_offset(self, df: int, dr: int) -> Option<Square> {
        let nf = self.file + df;
        let nr = self.rank + dr;
        if 0 <= nf < DEFAULT_WIDTH && 0 <= nr < DEFAULT_HEIGHT {
            Some(Square { file: nf as u8, rank: nr as u8 })
        } else {
            None
        }
    }

    pub fn offset(&self, df: i8, dr: i8) -> (r: Option<Square>)
        ensures
            r == self.spec_offset(df as int, dr as int),
    {
        let nf: i16 = self.file as i16 + df as i16;
        let nr: i16 = self.rank as i16 + dr as i16;
        if nf >= 0 && nr >= 0 && nf < DEFAULT_WIDTH as i16 && nr < DEFAULT_HEIGHT as i16 {
            Some(Square { file: nf as u8, rank: nr as u8 })
        } else {
            None
        }
    }
}

/// A piece together with its owner.
#[derive(Debug, Clone, Copy, PartialEq, Eq, Structural)]
pub struct Piece {
    pub owner: PlayerSide,
    pub kind: PieceKind,
}

/// One square whose occupant differs between two boards.
#[derive(Debug, Clone, Copy, PartialEq, Eq, Structural)]
pub struct BoardDiff {
    pub square: Square,
    pub before: Option<Piece>,
    pub after: Option<Piece>,
}

/// Piece kind on the back rank at a given file of the default layout.
pub open spec fn back_rank_kind(file: int) -> PieceKind {
    if file == 0 || file == 8 {
        PieceKind::Chariot
    } else if file == 1 || file == 7 {
        PieceKind::Horse
    } else if file == 2 || file == 6 {
        PieceKind::Elephant
    } else if file == 3 || file == 5 {
        PieceKind::Guard
    } else {
        PieceKind::General
    }
}

/// Files that carry a soldier in the default layout.
pub open spec fn soldier_file(file: int) -> bool {
    file == 0 || file == 2 || file == 4 || file == 6 || file == 8
}

/// The piece that the initial layout places on a cell of a board with the
/// given height, or `None` for a cell the layout leaves alone. Where two
/// placements would meet on a very short board, the one listed first here
/// wins, matching the order in which `setup_initial_positions` writes.
pub open spec fn initial_layout(file: int, rank: int, height: int) -> Option<Piece> {
    if rank + 4 == height && soldier_file(file) {
        Some(Piece { owner: PlayerSide::Red, kind: PieceKind::Soldier })
    } else if rank == 3 && soldier_file(file) {
        Some(Piece { owner: PlayerSide::Blue, kind: PieceKind::Soldier })
    } else if rank + 3 == height && (file == 1 || file == 7) {
        Some(Piece { owner: PlayerSide::Red, kind: PieceKind::Cannon })
    } else if rank == 2 && (file == 1 || file == 7) {
        Some(Piece { owner: PlayerSide::Blue, kind: PieceKind::Cannon })
    } else if rank + 1 == height && 0 <= file < 9 {
        Some(Piece { owner: PlayerSide::Red, kind: back_rank_kind(file) })
    } else if rank == 0 && 0 <= file < 9 {
        Some(Piece { owner: PlayerSide::Blue, kind: back_rank_kind(file) })
    } else {
        None
    }
}

/// Computes the piece the initial layout assigns to one cell.
fn initial_cell(file: u8, rank: u8, height: u8) -> (r: Option<Piece>)
    ensures
        r == initial_layout(file as int, rank as int, height as int),
{
    let f: u16 = file as u16;
    let rk: u16 = rank as u16;
    let h: u16 = height as u16;
    let soldier = f == 0 || f == 2 || f == 4 || f == 6 || f == 8;
    if rk + 4 == h && soldier {
        Some(Piece { owner: PlayerSide::Red, kind: PieceKind::Soldier })
    } else if rk == 3 && soldier {
        Some(Piece { owner: PlayerSide::Blue, kind: PieceKind::Soldier })
    } else if rk + 3 == h && (f == 1 || f == 7) {
        Some(Piece { owner: PlayerSide::Red, kind: PieceKind::Cannon })
    } else if rk == 2 && (f == 1 || f == 7) {
        Some(Piece { owner: PlayerSide::Blue, kind: PieceKind::Cannon })
    } else if rk + 1 == h && f < 9 {
        Some(Piece { owner: PlayerSide::Red, kind: back_rank_piece(file) })
    } else if rk == 0 && f < 9 {
        Some(Piece { owner: PlayerSide::Blue, kind: back_rank_piece(file) })
    } else {
        None
    }
}

/// Computes the back-rank piece kind for one file.
fn back_rank_piece(file: u8) -> (r: PieceKind)
    ensures
        r == back_rank_kind(file as int),
{
    if file == 0 || file == 8 {
        PieceKind::Chariot
    } else if file == 1 || file == 7 {
        PieceKind::Horse
    } else if file == 2 || file == 6 {
        PieceKind::Elephant
    } else if file == 3 || file == 5 {
        PieceKind::Guard
    } else {
        PieceKind::General
    }
}

/// Dense board representation: one slot per square in rank-major order.
#[derive(Debug)]
pub struct BoardState {
    pub side_to_move: PlayerSide,
    pub pieces: Vec<Option<Piece>>,
    pub width: u8,
    pub height: u8,
}

impl BoardState {
    /// Well-formedness: the slot array covers the board exactly.
    pub open spec fn wf(self) -> bool {
        self.pieces@.len() == self.width * self.height
    }

    /// Whether a square lies on this board.
    pub open spec fn in_bounds(self, square: Square) -> bool {
        square.file < self.width && square.rank < self.height
    }

    /// Rank-major slot index of a square.
    pub open spec fn spec_index_of(self, square: Square) -> int {
        square.rank * self.width + square.file
    }

    /// The piece at a square, `None` off the board or on an empty square.
    pub open spec fn spec_piece_at(self, square: Square) -> Option<Piece> {
        if self.in_bounds(square) && self.spec_index_of(square) < self.pieces@.len() {
            self.pieces@[self.spec_index_of(square)]
        } else {
            None
        }
    }

    /// A fresh 9 by 10 board with every square empty and `Blue` to move.
    pub fn empty() -> (r: BoardState)
        ensures
            r.wf(),
            r.width == DEFAULT_WIDTH,
            r.height == DEFAULT_HEIGHT,
            r.side_to_move == PlayerSide::Blue,
            forall|s: Square| r.spec_piece_at(s) is None,
    {
        proof {
            assert((DEFAULT_WIDTH as int) * (DEFAULT_HEIGHT as int) == 90) by (nonlinear_arith)
                requires
                    DEFAULT_WIDTH == 9,
                    DEFAULT_HEIGHT == 10,
            ;
        }
        let total: usize = DEFAULT_WIDTH as usize * DEFAULT_HEIGHT as usize;
        let mut pieces: Vec<Option<Piece>> = Vec::new();
        let mut i: usize = 0;
        while i < total
            invariant
                i <= total,
                pieces@.len() == i,
                forall|j: int| 0 <= j < i ==> pieces@[j] is None,
            decreases total - i,
        {
            pieces.push(None);
            i = i + 1;
        }
        BoardState {
            side_to_move: PlayerSide::Blue,
            pieces,
            width: DEFAULT_WIDTH,
            height: DEFAULT_HEIGHT,
        }
    }

    /// On a well-formed board every in-bounds square addresses a slot.
    pub proof fn lemma_index_in_range(self, square: Square)
        requires
            self.wf(),
            self.in_bounds(square),
        ensures
            0 <= self.spec_index_of(square) < self.pieces@.len(),
    {
        assert(0 <= square.rank * self.width + square.file < self.width * self.height)
            by (nonlinear_arith)
            requires
                square.file < self.width,
                square.rank < self.height,
        ;
    }

    /// Distinct in-bounds squares address distinct slots.
    pub proof fn lemma_index_injective(self, s1: Square, s2: Square)
        requires
            self.in_bounds(s1),
            self.in_bounds(s2),
            self.spec_index_of(s1) == self.spec_index_of(s2),
        ensures
            s1 == s2,
    {
        assert(s1.rank == s2.rank && s1.file == s2.file) by (nonlinear_arith)
            requires
                s1.file < self.width,
                s2.file < self.width,
                s1.rank * self.width + s1.file == s2.rank * self.width + s2.file,
        ;
    }

    pub fn index(&self, square: Square) -> (r: Option<usize>)
        ensures
            self.in_bounds(square) ==> (r matches Some(i) && i == self.spec_index_of(square)),
            !self.in_bounds(square) ==> r is None,
    {
        if square.file < self.width && square.rank < self.height {
            proof {
                assert((square.rank as int) * (self.width as int) + (square.file as int)
                    < 65536) by (nonlinear_arith)
                    requires
                        square.rank < 256,
                        self.width < 256,
                        square.file < 256,
                ;
            }
            Some((square.rank as usize) * (self.width as usize) + square.file as usize)
        } else {
            None
        }
    }

    pub fn piece_at(&self, square: Square) -> (r: Option<Piece>)
        ensures
            r == self.spec_piece_at(square),
    {
        match self.index(square) {
            Some(idx) => {
                if idx < self.pieces.len() {
                    self.pieces[idx]
                } else {
                    None
                }
            },
            None => None,
        }
    }

    pub fn is_empty(&self, square: Square) -> (r: bool)
        ensures
            r == (self.spec_piece_at(square) is None),
    {
        self.piece_at(square).is_none()
    }

    /// Writes `piece` into a square's slot; returns whether the square was
    /// addressable. On failure the board is unchanged.
    pub fn set_piece(&mut self, square: Square, piece: Option<Piece>) -> (r: bool)
        ensures
            final(self).side_to_move == old(self).side_to_move,
            final(self).width == old(self).width,
            final(self).height == old(self).height,
            r == (old(self).in_bounds(square) && old(self).spec_index_of(square) < old(
                self,
            ).pieces@.len()),
            r ==> final(self).pieces@ == old(self).pieces@.update(
                old(self).spec_index_of(square),
                piece,
            ),
            !r ==> *final(self) == *old(self),
    {
        match self.index(square) {
            Some(idx) => {
                if idx < self.pieces.len() {
                    self.pieces.set(idx, piece);
                    true
                } else {
                    false
                }
            },
            None => false,
        }
    }

    /// Writes the fixed starting arrangement onto this board: back ranks
    /// mirrored for both sides, cannons two ranks in, soldiers one rank
    /// further. Cells the layout does not mention keep their occupants.
    pub fn setup_initial_positions(&mut self)
        requires
            old(self).wf(),
        ensures
            final(self).side_to_move == old(self).side_to_move,
            final(self).width == old(self).width,
            final(self).height == old(self).height,
            final(self).wf(),
            forall|s: Square|
                final(self).in_bounds(s) ==> #[trigger] final(self).spec_piece_at(s) == (
                if initial_layout(s.file as int, s.rank as int, final(self).height as int) is Some {
                    initial_layout(s.file as int, s.rank as int, final(self).height as int)
                } else {
                    old(self).spec_piece_at(s)
                }),
    {
        let ghost orig = *self;
        let height = self.height;
        let mut rank: u8 = 0;
        while rank < self.height
            invariant
                self.wf(),
                self.side_to_move == orig.side_to_move,
                self.width == orig.width,
                self.height == orig.height,
                self.pieces@.len() == orig.pieces@.len(),
                height == self.height,
                rank <= self.height,
                forall|s: Square|
                    self.in_bounds(s) ==> #[trigger] self.spec_piece_at(s) == (
                    if s.rank < rank && initial_layout(
                        s.file as int,
                        s.rank as int,
                        self.height as int,
                    ) is Some {
                        initial_layout(s.file as int, s.rank as int, self.height as int)
                    } else {
                        orig.spec_piece_at(s)
                    }),
            decreases self.height - rank,
        {
            let mut file: u8 = 0;
            while file < self.width
                invariant
                    self.wf(),
                    self.side_to_move == orig.side_to_move,
                    self.width == orig.width,
                    self.height == orig.height,
                    self.pieces@.len() == orig.pieces@.len(),
                    height == self.height,
                    rank < self.height,
                    file <= self.width,
                    forall|s: Square|
                        self.in_bounds(s) ==> #[trigger] self.spec_piece_at(s) == (
                        if (s.rank < rank || (s.rank == rank && s.file < file)) && initial_layout(
                            s.file as int,
                            s.rank as int,
                            self.height as int,
                        ) is Some {
                            initial_layout(s.file as int, s.rank as int, self.height as int)
                        } else {
                            orig.spec_piece_at(s)
                        }),
                decreases self.width - file,
            {
                let cur = Square { file, rank };
                proof {
                    self.lemma_index_in_range(cur);
                }
                if let Some(p) = initial_cell(file, rank, height) {
                    let ghost before = *self;
                    self.set_piece(cur, Some(p));
                    proof {
                        assert forall|s: Square| self.in_bounds(s) implies #[trigger] self.spec_piece_at(
                            s,
                        ) == (if (s.rank < rank || (s.rank == rank && s.file < file + 1))
                            && initial_layout(
                            s.file as int,
                            s.rank as int,
                            self.height as int,
                        ) is Some {
                            initial_layout(s.file as int, s.rank as int, self.height as int)
                        } else {
                            orig.spec_piece_at(s)
                        }) by {
                            before.lemma_index_in_range(s);
                            if s == cur {
                                assert(self.spec_piece_at(cur) == Some(p));
                            } else {
                                if before.spec_index_of(s) == before.spec_index_of(cur) {
                                    before.lemma_index_injective(s, cur);
                                }
                                assert(self.spec_piece_at(s) == before.spec_piece_at(s));
                            }
                        }
                    }
                }
                file = file + 1;
            }
            rank = rank + 1;
        }
    }

    /// A fresh board holding the deterministic starting arrangement.
    pub fn initial() -> (r: BoardState)
        ensures
            r.wf(),
            r.width == DEFAULT_WIDTH,
            r.height == DEFAULT_HEIGHT,
            r.side_to_move == PlayerSide::Blue,
            forall|s: Square|
                r.in_bounds(s) ==> #[trigger] r.spec_piece_at(s) == initial_layout(
                    s.file as int,
                    s.rank as int,
                    DEFAULT_HEIGHT as int,
                ),
            forall|s: Square| !r.in_bounds(s) ==> #[trigger] r.spec_piece_at(s) is None,
    {
        let mut board = BoardState::empty();
        board.setup_initial_positions();
        board
    }

    /// Moves the occupant of `from` to `to`, clearing `from` and returning
    /// whatever sat on `to` before. No legality check is made. Fails when
    /// `from` is empty or `to` is not addressable; the board is then
    /// unchanged.
    pub fn move_piece(&mut self, from: Square, to: Square) -> (r: Result<Option<Piece>, String>)
        ensures
            final(self).side_to_move == old(self).side_to_move,
            final(self).width == old(self).width,
            final(self).height == old(self).height,
            old(self).spec_piece_at(from) is None ==> {
                &&& r matches Err(m) && m@ == "no piece at the origin square"@
                &&& *final(self) == *old(self)
            },
            old(self).spec_piece_at(from) matches Some(moving) ==> {
                if old(self).in_bounds(to) && old(self).spec_index_of(to) < old(
                    self,
                ).pieces@.len() {
                    &&& r == Ok::<Option<Piece>, String>(old(self).spec_piece_at(to))
                    &&& final(self).pieces@ == old(self).pieces@.update(
                        old(self).spec_index_of(to),
                        Some(moving),
                    ).update(old(self).spec_index_of(from), None)
                } else {
                    &&& r matches Err(m) && m@ == "the target square is not on the board"@
                    &&& *final(self) == *old(self)
                }
            },
    {
        let moving = match self.piece_at(from) {
            Some(p) => p,
            None => {
                return Err("no piece at the origin square".to_owned());
            },
        };
        let captured = self.piece_at(to);
        if !self.set_piece(to, Some(moving)) {
            return Err("the target square is not on the board".to_owned());
        }
        self.set_piece(from, None);
        Ok(captured)
    }
    /// The diff entry one cell contributes: a singleton when the occupant
    /// differs between the two boards, else nothing.
    pub open spec fn diff_at(a: BoardState, b: BoardState, file: int, rank: int) -> Seq<
        BoardDiff,
    > {
        let sq = Square { file: file as u8, rank: rank as u8 };
        if a.spec_piece_at(sq) != b.spec_piece_at(sq) {
            seq![
                BoardDiff {
                    square: sq,
                    before: a.spec_piece_at(sq),
                    after: b.spec_piece_at(sq),
                },
            ]
        } else {
            Seq::empty()
        }
    }

    /// Diff entries of one rank, files `0 .. file_count`, in file order.
    pub open spec fn row_diffs(a: BoardState, b: BoardState, rank: int, file_count: int) -> Seq<
        BoardDiff,
    >
        decreases file_count,
    {
        if file_count <= 0 {
            Seq::empty()
        } else {
            Self::row_diffs(a, b, rank, file_count - 1) + Self::diff_at(a, b, file_count - 1, rank)
        }
    }

    /// Diff entries of ranks `0 .. rank_count`, rank-major.
    pub open spec fn diffs_up_to(
        a: BoardState,
        b: BoardState,
        rank_count: int,
        file_count: int,
    ) -> Seq<BoardDiff>
        decreases rank_count,
    {
        if rank_count <= 0 {
            Seq::empty()
        } else {
            Self::diffs_up_to(a, b, rank_count - 1, file_count) + Self::row_diffs(
                a,
                b,
                rank_count - 1,
                file_count,
            )
        }
    }

    /// All per-square differences between two boards over their overlapping
    /// rectangle, in rank-major order with files ascending within a rank.
    pub open spec fn spec_differences(a: BoardState, b: BoardState) -> Seq<BoardDiff> {
        let w = if a.width <= b.width {
            a.width as int
        } else {
            b.width as int
        };
        let h = if a.height <= b.height {
            a.height as int
        } else {
            b.height as int
        };
        Self::diffs_up_to(a, b, h, w)
    }

    /// Lists each square of the overlapping rectangle whose occupant
    /// differs between `self` and `other`, rank-major, files ascending.
    pub fn differences(&self, other: &BoardState) -> (r: Vec<BoardDiff>)
        ensures
            r@ == Self::spec_differences(*self, *other),
    {
        let mut diffs: Vec<BoardDiff> = Vec::new();
        let width: u8 = if self.width <= other.width {
            self.width
        } else {
            other.width
        };
        let height: u8 = if self.height <= other.height {
            self.height
        } else {
            other.height
        };
        let mut rank: u8 = 0;
        while rank < height
            invariant
                rank <= height,
                width == (if self.width <= other.width {
                    self.width as int
                } else {
                    other.width as int
                }),
                height == (if self.height <= other.height {
                    self.height as int
                } else {
                    other.height as int
                }),
                diffs@ == Self::diffs_up_to(*self, *other, rank as int, width as int),
            decreases height - rank,
        {
            let mut file: u8 = 0;
            while file < width
                invariant
                    rank < height,
                    file <= width,
                    width == (if self.width <= other.width {
                        self.width as int
                    } else {
                        other.width as int
                    }),
                    diffs@ == Self::diffs_up_to(*self, *other, rank as int, width as int)
                        + Self::row_diffs(*self, *other, rank as int, file as int),
                decreases width - file,
            {
                let square = Square { file, rank };
                let before = self.piece_at(square);
                let after = other.piece_at(square);
                if !piece_opt_eq(before, after) {
                    diffs.push(BoardDiff { square, before, after });
                }
                file = file + 1;
            }
            rank = rank + 1;
        }
        diffs
    }

    /// One step of the move-inference scan: how a single diff entry
    /// updates the running `(from, to, moving, captured)` state.
    pub open spec fn infer_step(
        st: (Option<Square>, Option<Square>, Option<Piece>, Option<Piece>),
        d: BoardDiff,
    ) -> (Option<Square>, Option<Square>, Option<Piece>, Option<Piece>) {
        match (d.before, d.after) {
            (Some(bef), None) => (Some(d.square), st.1, Some(bef), st.3),
            (None, Some(aft)) => (st.0, Some(d.square), Some(aft), st.3),
            (Some(bef), Some(aft)) => if bef != aft {
                (st.0, Some(d.square), Some(aft), Some(bef))
            } else {
                st
            },
            (None, None) => st,
        }
    }

    /// The `(from, to, moving, captured)` state after scanning a whole
    /// diff list left to right.
    pub open spec fn infer_state(s: Seq<BoardDiff>) -> (
        Option<Square>,
        Option<Square>,
        Option<Piece>,
        Option<Piece>,
    )
        decreases s.len(),
    {
        if s.len() == 0 {
            (None, None, None, None)
        } else {
            Self::infer_step(Self::infer_state(s.drop_last()), s.last())
        }
    }

    /// The move a diff list describes: present only when the scan found
    /// both an origin and a destination (and so a moving piece).
    pub open spec fn spec_infer(s: Seq<BoardDiff>) -> Option<
        (Square, Square, Piece, Option<Piece>),
    > {
        let st = Self::infer_state(s);
        if st.0 is Some && st.1 is Some && st.2 is Some {
            Some((st.0->0, st.1->0, st.2->0, st.3))
        } else {
            None
        }
    }

    /// Reconstructs, best effort, the single move (origin, destination,
    /// moving piece, captured piece) that explains a diff list. A vacated
    /// square marks the origin; an occupied or changed square marks the
    /// destination, a changed square also recording the capture. Returns
    /// `None` when no origin or no destination was found. When several
    /// entries compete for a role, the one scanned last wins.
    pub fn infer_move_from_diffs(diffs: &[BoardDiff]) -> (r: Option<
        (Square, Square, Piece, Option<Piece>),
    >)
        ensures
            r == Self::spec_infer(diffs@),
    {
        let mut from_square: Option<Square> = None;
        let mut to_square: Option<Square> = None;
        let mut moving_piece: Option<Piece> = None;
        let mut captured_piece: Option<Piece> = None;

        let n = diffs.len();
        let mut i: usize = 0;
        while i < n
            invariant
                i <= n,
                n == diffs@.len(),
                (from_square, to_square, moving_piece, captured_piece) == Self::infer_state(
                    diffs@.take(i as int),
                ),
            decreases n - i,
        {
            let d = diffs[i];
            proof {
                assert(diffs@.take(i + 1).drop_last() == diffs@.take(i as int));
                assert(diffs@.take(i + 1).last() == diffs@[i as int]);
            }
            match (d.before, d.after) {
                (Some(bef), None) => {
                    from_square = Some(d.square);
                    moving_piece = Some(bef);
                },
                (None, Some(aft)) => {
                    to_square = Some(d.square);
                    moving_piece = Some(aft);
                },
                (Some(bef), Some(aft)) => {
                    if !(bef == aft) {
                        to_square = Some(d.square);
                        moving_piece = Some(aft);
                        captured_piece = Some(bef);
                    }
                },
                (None, None) => {},
            }
            i = i + 1;
        }
        proof {
            assert(diffs@.take(n as int) == diffs@);
        }
        match (from_square, to_square, moving_piece) {
            (Some(from), Some(to), Some(piece)) => Some((from, to, piece, captured_piece)),
            _ => None,
        }
    }

}

impl Clone for BoardState {
    /// A deep copy: same side to move, dimensions and piece placement.
    fn clone(&self) -> (r: BoardState)
        ensures
            r.side_to_move == self.side_to_move,
            r.width == self.width,
            r.height == self.height,
            r.pieces@ == self.pieces@,
    {
        let mut pieces: Vec<Option<Piece>> = Vec::new();
        let n = self.pieces.len();
        let mut i: usize = 0;
        while i < n
            invariant
                i <= n,
                n == self.pieces@.len(),
                pieces@ == self.pieces@.take(i as int),
            decreases n - i,
        {
            pieces.push(self.pieces[i]);
            proof {
                assert(pieces@ =~= self.pieces@.take(i + 1));
            }
            i = i + 1;
        }
        proof {
            assert(self.pieces@.take(n as int) == self.pieces@);
        }
        BoardState {
            side_to_move: self.side_to_move,
            pieces,
            width: self.width,
            height: self.height,
        }
    }
}

/// Compares two optional pieces for equality.
fn piece_opt_eq(a: Option<Piece>, b: Option<Piece>) -> (r: bool)
    ensures
        r == (a == b),
{
    match (a, b) {
        (None, None) => true,
        (Some(x), Some(y)) => x == y,
        _ => false,
    }
}

} // verus!
