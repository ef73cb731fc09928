//! Screen geometry: fixed tap points for the start and formation
//! gesture flows, and the mapping from board squares to screen points.

use vstd::prelude::*;

use crate::board::Square;

verus! {

/// A screen coordinate in pixels.
#[derive(Debug, Clone, Copy, PartialEq, Eq, Structural)]
pub struct Point {
    pub x: u32,
    pub y: u32,
}

impl Point {
    pub fn new(x: u32, y: u32) -> (r: Point)
        ensures
            r.x == x,
            r.y == y,
    {
        Point { x, y }
    }
}

/// The three taps of the match-start flow.
#[derive(Debug, Clone, Copy, PartialEq, Eq, Structural)]
pub enum StartFlowStep {
    Apply,
    ConfirmYes,
    ConfirmOk,
}

/// The screen point tapped for one step of the start flow.
pub open spec fn spec_start_flow_point(step: StartFlowStep) -> Point {
    match step {
        StartFlowStep::Apply => Point { x: 550, y: 1180 },
        StartFlowStep::ConfirmYes => Point { x: 280, y: 710 },
        StartFlowStep::ConfirmOk => Point { x: 360, y: 750 },
    }
}

pub fn start_flow_point(step: StartFlowStep) -> (r: Point)
    ensures
        r == spec_start_flow_point(step),
{
    match step {
        StartFlowStep::Apply => Point { x: 550, y: 1180 },
        StartFlowStep::ConfirmYes => Point { x: 280, y: 710 },
        StartFlowStep::ConfirmOk => Point { x: 360, y: 750 },
    }
}

/// The four selectable starting formations.
#[derive(Debug, Clone, Copy, PartialEq, Eq, Structural)]
pub enum FormationPreset {
    MasangMasang,
    SangMasangMa,
    MasangSangMa,
    SangMaMaSang,
}

impl Default for FormationPreset {
    fn default() -> (r: FormationPreset)
        ensures
            r == FormationPreset::MasangMasang,
    {
        FormationPreset::MasangMasang
    }
}

/// The screen point tapped to select one formation.
pub open spec fn spec_formation_point(preset: FormationPreset) -> Point {
    match preset {
        FormationPreset::MasangMasang => Point { x: 280, y: 560 },
        FormationPreset::SangMasangMa => Point { x: 450, y: 560 },
        FormationPreset::MasangSangMa => Point { x: 280, y: 620 },
        FormationPreset::SangMaMaSang => Point { x: 450, y: 620 },
    }
}

pub fn formation_point(preset: FormationPreset) -> (r: Point)
    ensures
        r == spec_formation_point(preset),
{
    match preset {
        FormationPreset::MasangMasang => Point { x: 280, y: 560 },
        FormationPreset::SangMasangMa => Point { x: 450, y: 560 },
        FormationPreset::MasangSangMa => Point { x: 280, y: 620 },
        FormationPreset::SangMaMaSang => Point { x: 450, y: 620 },
    }
}

/// The screen point of the formation confirmation button.
pub open spec fn spec_formation_confirm_point() -> Point {
    Point { x: 450, y: 680 }
}

pub fn formation_confirm_point() -> (r: Point)
    ensures
        r == spec_formation_confirm_point(),
{
    Point { x: 450, y: 680 }
}

/// Screen x coordinate of a board file, for files 0 to 8.
pub open spec fn file_x(file: int) -> u32 {
    if file == 0 {
        40
    } else if file == 1 {
        125
    } else if file == 2 {
        200
    } else if file == 3 {
        280
    } else if file == 4 {
        360
    } else if file == 5 {
        440
    } else if file == 6 {
        520
    } else if file == 7 {
        600
    } else {
        680
    }
}

/// Screen y coordinate of a board rank, for ranks 0 to 9. Rank zero is
/// nearest the bottom of the screen.
pub open spec fn rank_y(rank: int) -> u32 {
    if rank == 0 {
        880
    } else if rank == 1 {
        800
    } else if rank == 2 {
        740
    } else if rank == 3 {
        670
    } else if rank == 4 {
        600
    } else if rank == 5 {
        530
    } else if rank == 6 {
        450
    } else if rank == 7 {
        380
    } else if rank == 8 {
        300
    } else {
        240
    }
}

/// The screen point a square maps to, or `None` off the 9 by 10 board.
pub open spec fn spec_square_to_point(square: Square) -> Option<Point> {
    if square.file < 9 && square.rank < 10 {
        Some(Point { x: file_x(square.file as int), y: rank_y(square.rank as int) })
    } else {
        None
    }
}

/// Maps a board square to the screen point at its center.
pub fn square_to_point(square: Square) -> (r: Option<Point>)
    ensures
        r == spec_square_to_point(square),
{
    if square.file < 9 && square.rank < 10 {
        let x: u32 = match square.file {
            0 => 40,
            1 => 125,
            2 => 200,
            3 => 280,
            4 => 360,
            5 => 440,
            6 => 520,
            7 => 600,
            _ => 680,
        };
        let y: u32 = match square.rank {
            0 => 880,
            1 => 800,
            2 => 740,
            3 => 670,
            4 => 600,
            5 => 530,
            6 => 450,
            7 => 380,
            8 => 300,
            _ => 240,
        };
        Some(Point { x, y })
    } else {
        None
    }
}

} // verus!
