//! Game-level types: moves, move candidates, per-turn snapshots and
//! engine decisions.

use vstd::prelude::*;

use crate::board::BoardState;
use crate::board::PieceKind;
use crate::board::PlayerSide;
use crate::board::Square;
use crate::board::DEFAULT_HEIGHT;
use crate::board::DEFAULT_WIDTH;
use crate::board::initial_layout;
use crate::stamp::now_millis;

verus! {

/// A move from one square to another. `promotion` is reserved and unused
/// for this game. `confidence` carries the candidate score that produced
/// the move, in tenths of a material point.
#[derive(Debug, Clone, Copy, PartialEq, Eq, Structural)]
pub struct Move {
    pub from: Square,
    pub to: Square,
    pub promotion: Option<PieceKind>,
    pub confidence: Option<u32>,
}

/// A candidate move with its heuristic capture score, in tenths of a
/// material point, and the search depth that produced it.
#[derive(Debug, Clone, Copy, PartialEq, Eq, Structural)]
pub struct MoveCandidate {
    pub mv: Move,
    pub score: u32,
    pub depth: u8,
}

/// Remaining clock time of both players, in milliseconds.
#[derive(Debug, Clone, Copy, PartialEq, Eq, Structural)]
pub struct GameClocks {
    pub blue_ms: u64,
    pub red_ms: u64,
}

impl Default for GameClocks {
    fn default() -> (r: GameClocks)
        ensures
            r.blue_ms == 0,
            r.red_ms == 0,
    {
        GameClocks { blue_ms: 0, red_ms: 0 }
    }
}

/// Coarse phase of a match.
#[derive(Debug, Clone, Copy, PartialEq, Eq, Structural)]
pub enum GamePhase {
    Opening,
    Midgame,
    Endgame,
}

impl Default for GamePhase {
    fn default() -> (r: GamePhase)
        ensures
            r == GamePhase::Opening,
    {
        GamePhase::Opening
    }
}

/// The authoritative per-turn state: a board with its bookkeeping. A new
/// snapshot is produced by each successful recognition; the orchestrator
/// holds the single current copy between turns.
#[derive(Debug)]
pub struct GameSnapshot {
    pub board: BoardState,
    pub ply: u32,
    pub last_move: Option<Move>,
    pub phase: GamePhase,
    pub clocks: GameClocks,
    /// Creation time in milliseconds since the Unix epoch.
    pub created_at: i64,
}

impl Clone for GameSnapshot {
    /// A deep copy of the snapshot and its board.
    fn clone(&self) -> (r: GameSnapshot)
        ensures
            r.board.side_to_move == self.board.side_to_move,
            r.board.width == self.board.width,
            r.board.height == self.board.height,
            r.board.pieces@ == self.board.pieces@,
            r.ply == self.ply,
            r.last_move == self.last_move,
            r.phase == self.phase,
            r.clocks == self.clocks,
            r.created_at == self.created_at,
    {
        GameSnapshot {
            board: self.board.clone(),
            ply: self.ply,
            last_move: self.last_move,
            phase: self.phase,
            clocks: self.clocks,
            created_at: self.created_at,
        }
    }
}

impl Default for GameSnapshot {
    /// A fresh snapshot of the initial layout at ply zero, stamped with
    /// the current time.
    fn default() -> (r: GameSnapshot)
        ensures
            r.board.wf(),
            r.board.width == DEFAULT_WIDTH,
            r.board.height == DEFAULT_HEIGHT,
            r.board.side_to_move == PlayerSide::Blue,
            forall|s: Square|
                r.board.in_bounds(s) ==> #[trigger] r.board.spec_piece_at(s) == initial_layout(
                    s.file as int,
                    s.rank as int,
                    DEFAULT_HEIGHT as int,
                ),
            r.ply == 0,
            r.last_move is None,
            r.phase == GamePhase::Opening,
            r.clocks.blue_ms == 0 && r.clocks.red_ms == 0,
    {
        GameSnapshot {
            board: BoardState::initial(),
            ply: 0,
            last_move: None,
            phase: GamePhase::Opening,
            clocks: GameClocks { blue_ms: 0, red_ms: 0 },
            created_at: now_millis(),
        }
    }
}

impl GameSnapshot {
    /// Applies a move played by `side` to the retained board: the piece
    /// at the origin must belong to `side`; on success the board is
    /// updated, the side to move flips, the move is recorded and the ply
    /// counter advances. On failure the snapshot is unchanged.
    pub fn apply_move(&mut self, side: PlayerSide, mv: &Move) -> (r: Result<(), String>)
        requires
            old(self).ply < u32::MAX,
        ensures
            final(self).board.width == old(self).board.width,
            final(self).board.height == old(self).board.height,
            final(self).phase == old(self).phase,
            final(self).clocks == old(self).clocks,
            final(self).created_at == old(self).created_at,
            old(self).board.spec_piece_at(mv.from) is None ==> {
                &&& r matches Err(m) && m@ == "no piece at the origin square"@
                &&& final(self).board == old(self).board
                &&& final(self).ply == old(self).ply
                &&& final(self).last_move == old(self).last_move
                &&& final(self).board.side_to_move == old(self).board.side_to_move
            },
            old(self).board.spec_piece_at(mv.from) matches Some(moving) ==> moving.owner != side
                ==> {
                &&& r matches Err(m) && m@ == "the moving piece does not belong to the player"@
                &&& final(self).board == old(self).board
                &&& final(self).ply == old(self).ply
                &&& final(self).last_move == old(self).last_move
            },
            old(self).board.spec_piece_at(mv.from) matches Some(moving) ==> moving.owner == side
                ==> {
                if old(self).board.in_bounds(mv.to) && old(self).board.spec_index_of(mv.to) < old(
                    self,
                ).board.pieces@.len() {
                    &&& r is Ok
                    &&& final(self).board.pieces@ == old(self).board.pieces@.update(
                        old(self).board.spec_index_of(mv.to),
                        Some(moving),
                    ).update(old(self).board.spec_index_of(mv.from), None)
                    &&& final(self).board.side_to_move == side.spec_opponent()
                    &&& final(self).last_move == Some(*mv)
                    &&& final(self).ply == old(self).ply + 1
                } else {
                    &&& r matches Err(m) && m@ == "the target square is not on the board"@
                    &&& final(self).board == old(self).board
                    &&& final(self).ply == old(self).ply
                    &&& final(self).last_move == old(self).last_move
                }
            },
    {
        let moving = match self.board.piece_at(mv.from) {
            Some(p) => p,
            None => {
                return Err("no piece at the origin square".to_owned());
            },
        };
        if !(moving.owner == side) {
            return Err("the moving piece does not belong to the player".to_owned());
        }
        match self.board.move_piece(mv.from, mv.to) {
            Ok(_) => {},
            Err(m) => {
                return Err(m);
            },
        }
        self.board.side_to_move = side.opponent();
        self.last_move = Some(*mv);
        self.ply = self.ply + 1;
        Ok(())
    }
}

/// The outcome of one engine evaluation: the move to play, if any, the
/// scored candidates in descending score order, and search metrics.
#[derive(Debug, Clone)]
pub struct EngineDecision {
    pub best_move: Option<Move>,
    pub candidates: Vec<MoveCandidate>,
    pub searched_nodes: u64,
    pub depth: u8,
    pub duration_ms: u128,
}

/// What an engine is asked to evaluate: a snapshot and the side to play.
#[derive(Debug)]
pub struct TurnContext {
    pub snapshot: GameSnapshot,
    pub side: PlayerSide,
}

} // verus!
