//! Board recognition: the frame and hint types, the recognizer
//! interface, template-label parsing and tile geometry.

use vstd::prelude::*;

use crate::board::BoardState;
use crate::board::PieceKind;
use crate::board::PlayerSide;
use crate::errors::MinervaError;
use crate::game::GameSnapshot;
use crate::stamp::now_millis;

verus! {

/// A captured screen frame: raw RGBA bytes with dimensions.
#[derive(Debug)]
pub struct ImageFrame {
    pub width: u32,
    pub height: u32,
    pub data: Vec<u8>,
    /// Capture time in milliseconds since the Unix epoch.
    pub captured_at: i64,
}

impl ImageFrame {
    /// A placeholder frame with no pixels.
    pub fn empty() -> (r: ImageFrame)
        ensures
            r.width == 0,
            r.height == 0,
            r.data@.len() == 0,
    {
        ImageFrame { width: 0, height: 0, data: Vec::new(), captured_at: now_millis() }
    }

    /// Wraps a raw RGBA buffer, stamped with the current time.
    pub fn from_rgba(width: u32, height: u32, data: Vec<u8>) -> (r: ImageFrame)
        ensures
            r.width == width,
            r.height == height,
            r.data@ == data@,
    {
        ImageFrame { width, height, data, captured_at: now_millis() }
    }
}

/// Context that can guide recognition: the previous snapshot, if any.
#[derive(Debug)]
pub struct RecognitionHints {
    pub previous_snapshot: Option<GameSnapshot>,
}

impl Default for RecognitionHints {
    fn default() -> (r: RecognitionHints)
        ensures
            r.previous_snapshot is None,
    {
        RecognitionHints { previous_snapshot: None }
    }
}

/// A recognizer turns a captured frame into board state. Recognition
/// reads pixels, so nothing is promised of its output.
pub trait BoardRecognizer: Sized {
    /// Locates the board in a frame.
    fn align_board(&self, frame: &ImageFrame) -> Result<BoardState, MinervaError>;

    /// Produces a fresh snapshot from a frame, guided by the hints.
    fn recognize(&self, frame: &ImageFrame, hints: RecognitionHints) -> Result<
        GameSnapshot,
        MinervaError,
    >;
}

/// The owner and kind a template label names, or `None` for a label
/// that is not of the form `<owner>_<kind>`.
pub open spec fn spec_parse_label(s: Seq<char>) -> Option<(PlayerSide, PieceKind)> {
    if s == "blue_general"@ {
        Some((PlayerSide::Blue, PieceKind::General))
    } else if s == "blue_guard"@ {
        Some((PlayerSide::Blue, PieceKind::Guard))
    } else if s == "blue_elephant"@ {
        Some((PlayerSide::Blue, PieceKind::Elephant))
    } else if s == "blue_horse"@ {
        Some((PlayerSide::Blue, PieceKind::Horse))
    } else if s == "blue_chariot"@ {
        Some((PlayerSide::Blue, PieceKind::Chariot))
    } else if s == "blue_cannon"@ {
        Some((PlayerSide::Blue, PieceKind::Cannon))
    } else if s == "blue_soldier"@ {
        Some((PlayerSide::Blue, PieceKind::Soldier))
    } else if s == "red_general"@ {
        Some((PlayerSide::Red, PieceKind::General))
    } else if s == "red_guard"@ {
        Some((PlayerSide::Red, PieceKind::Guard))
    } else if s == "red_elephant"@ {
        Some((PlayerSide::Red, PieceKind::Elephant))
    } else if s == "red_horse"@ {
        Some((PlayerSide::Red, PieceKind::Horse))
    } else if s == "red_chariot"@ {
        Some((PlayerSide::Red, PieceKind::Chariot))
    } else if s == "red_cannon"@ {
        Some((PlayerSide::Red, PieceKind::Cannon))
    } else if s == "red_soldier"@ {
        Some((PlayerSide::Red, PieceKind::Soldier))
    } else {
        None
    }
}

/// Compares two string slices by their text.
fn str_eq(a: &str, b: &str) -> (r: bool)
    ensures
        r == (a@ == b@),
{
    let x = a.to_owned();
    let y = b.to_owned();
    x == y
}

/// Parses a template label of the form `<owner>_<kind>`, such as
/// `blue_soldier` or `red_chariot`.
pub fn parse_label(label: &str) -> (r: Option<(PlayerSide, PieceKind)>)
    ensures
        r == spec_parse_label(label@),
{
    if str_eq(label, "blue_general") {
        Some((PlayerSide::Blue, PieceKind::General))
    } else if str_eq(label, "blue_guard") {
        Some((PlayerSide::Blue, PieceKind::Guard))
    } else if str_eq(label, "blue_elephant") {
        Some((PlayerSide::Blue, PieceKind::Elephant))
    } else if str_eq(label, "blue_horse") {
        Some((PlayerSide::Blue, PieceKind::Horse))
    } else if str_eq(label, "blue_chariot") {
        Some((PlayerSide::Blue, PieceKind::Chariot))
    } else if str_eq(label, "blue_cannon") {
        Some((PlayerSide::Blue, PieceKind::Cannon))
    } else if str_eq(label, "blue_soldier") {
        Some((PlayerSide::Blue, PieceKind::Soldier))
    } else if str_eq(label, "red_general") {
        Some((PlayerSide::Red, PieceKind::General))
    } else if str_eq(label, "red_guard") {
        Some((PlayerSide::Red, PieceKind::Guard))
    } else if str_eq(label, "red_elephant") {
        Some((PlayerSide::Red, PieceKind::Elephant))
    } else if str_eq(label, "red_horse") {
        Some((PlayerSide::Red, PieceKind::Horse))
    } else if str_eq(label, "red_chariot") {
        Some((PlayerSide::Red, PieceKind::Chariot))
    } else if str_eq(label, "red_cannon") {
        Some((PlayerSide::Red, PieceKind::Cannon))
    } else if str_eq(label, "red_soldier") {
        Some((PlayerSide::Red, PieceKind::Soldier))
    } else {
        None
    }
}

/// Half-sizes of the tile cropped around each board intersection: 45
/// percent of the average spacing of the file and rank grid lines, and
/// at least 8 pixels.
pub fn compute_cell_half_sizes() -> (r: (u32, u32))
    ensures
        r.0 == 36,
        r.1 == 32,
{
    let file_total: u32 = (125 - 40) + (200 - 125) + (280 - 200) + (360 - 280) + (440 - 360) + (520
        - 440) + (600 - 520) + (680 - 600);
    let rank_total: u32 = (880 - 800) + (800 - 740) + (740 - 670) + (670 - 600) + (600 - 530) + (530
        - 450) + (450 - 380) + (380 - 300) + (300 - 240);
    proof {
        assert((640 * 45) / (8 * 100) == 36int) by (nonlinear_arith);
        assert((640 * 45) / (9 * 100) == 32int) by (nonlinear_arith);
    }
    let half_width: u32 = (file_total * 45) / (8 * 100);
    let half_height: u32 = (rank_total * 45) / (9 * 100);
    let half_width = if half_width < 8 {
        8
    } else {
        half_width
    };
    let half_height = if half_height < 8 {
        8
    } else {
        half_height
    };
    (half_width, half_height)
}

/// Builds a vision-subsystem error carrying `message`.
pub fn vision_error(message: &str) -> (r: MinervaError)
    ensures
        r matches MinervaError::Vision(m) && m@ == message@,
{
    MinervaError::Vision(message.to_owned())
}

} // verus!
