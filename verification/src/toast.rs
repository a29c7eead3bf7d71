//! The on-screen notice shown when a clip is saved, at the bottom right of the
//! game's screen, without taking the focus away from the game.
use vstd::prelude::*;

verus! {

/// How many milliseconds the notice stays.
pub const VISIBLE_FOR: u64 = 3500;

/// How many milliseconds pass between two looks for the window.
pub const SETUP_DELAY: u64 = 250;

/// How often the window is looked for.
pub const SETUP_ATTEMPTS: u32 = 40;

/// The distance to the edges of the screen, before scaling.
pub const MARGIN: i32 = 24;

/// A point on the desktop.
#[derive(Debug, Clone, Copy, PartialEq, Eq, Structural)]
pub struct Point {
    pub x: i32,
    pub y: i32,
}

/// The bottom right corner of the work area: that of the display that the
/// system names, a common one where it names none.
pub fn work_area_bottom_right(found: Option<Point>) -> (r: Point)
    ensures
        r == match found {
            Some(corner) => corner,
            None => Point { x: 1920, y: 1080 },
        },
{
    match found {
        Some(corner) => corner,
        None => Point { x: 1920, y: 1080 },
    }
}

/// A coordinate of the notice: as far in front of the edge as it is large and
/// the margin is wide, on the desktop in any case.
pub open spec fn placed(edge: i32, size: i32, margin: i32) -> int {
    let at = edge - size - margin;
    if at < 0 {
        0
    } else {
        at
    }
}

fn place_along(edge: i32, size: i32, margin: i32) -> (r: i32)
    requires
        edge - size - margin <= i32::MAX,
    ensures
        r == placed(edge, size, margin),
{
    let at: i64 = edge as i64 - size as i64 - margin as i64;
    if at < 0 {
        0
    } else {
        at as i32
    }
}

/// Where the notice goes: the bottom right corner of the work area, above the
/// taskbar.
pub fn place(corner: Point, width: i32, height: i32, margin: i32) -> (r: Point)
    requires
        width >= 0 && height >= 0 && margin >= 0,
    ensures
        r.x == placed(corner.x, width, margin),
        r.y == placed(corner.y, height, margin),
{
    Point {
        x: place_along(corner.x, width, margin),
        y: place_along(corner.y, height, margin),
    }
}

/// What is done after a look for the window.
#[derive(Debug, Clone, Copy, PartialEq, Eq, Structural)]
pub enum SetupStep {
    /// The window is there: it is parked hidden.
    Park,
    /// It is looked for again, so often at most.
    Retry { left: u32 },
    /// It never appeared; it may take the focus.
    GiveUp,
}

/// What is done after a look for the window.
pub fn finish_setup(ready: bool, left: u32) -> (r: SetupStep)
    ensures
        r == if ready {
            SetupStep::Park
        } else if left > 0 {
            SetupStep::Retry { left: (left - 1) as u32 }
        } else {
            SetupStep::GiveUp
        },
{
    if ready {
        SetupStep::Park
    } else if left > 0 {
        SetupStep::Retry { left: left - 1 }
    } else {
        SetupStep::GiveUp
    }
}

/// The notice stays on the work area as long as the area has room for it.
pub proof fn the_notice_stays_on_the_screen(edge: i32, size: i32, margin: i32)
    requires
        size >= 0 && margin >= 0,
        size + margin <= edge,
    ensures
        0 <= placed(edge, size, margin),
        placed(edge, size, margin) + size + margin == edge,
{
}

/// A notice that does not fit starts at the edge of the area.
pub proof fn a_large_notice_starts_at_the_edge(edge: i32, size: i32, margin: i32)
    requires
        size + margin > edge,
    ensures
        placed(edge, size, margin) == 0,
{
}

} // verus!
