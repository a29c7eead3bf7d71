//! The video head on X11:
//!
//! ```text
//! ximagesrc -> capsfilter(fps) -> videorate -> capsfilter(grid)
//!   -> [videoscale] -> videoconvert -> capsfilter(square pixels)
//! ```
use vstd::prelude::*;

use super::monitors::find_primary;
use crate::config::{position_of_monitor, DisplaySelection, MonitorInfo};
use crate::error::CaptureError;
use crate::numbers::to_i32;
use crate::text::{decimal, join3};

verus! {

/// How long the first frame may take, in seconds.
pub const FIRST_FRAME_TIMEOUT: u64 = 8;

/// A part of the root window, both ends part of it.
#[derive(Debug, Clone, Copy, PartialEq, Eq, Structural)]
pub struct Region {
    pub startx: u32,
    pub starty: u32,
    pub endx: u32,
    pub endy: u32,
}

/// A picture size.
#[derive(Debug, Clone, Copy, PartialEq, Eq, Structural)]
pub struct Size {
    pub width: u32,
    pub height: u32,
}

/// An element of the video head.
#[derive(Debug, Clone, Copy, PartialEq, Eq, Structural)]
pub enum HeadElement {
    /// The screen source, limited to a region.
    Source { show_pointer: bool, region: Option<Region> },
    /// Frames at this rate.
    RateFilter(i32),
    /// Stamps frames onto an exact grid.
    Rate,
    /// Scales to the size of the last filter without borders.
    Scale,
    Convert,
    /// Square pixels, and a fixed size when frames are stretched.
    OutFilter(Option<Size>),
}

/// The video side of a capture pipeline up to the encoder.
#[derive(Debug)]
pub struct VideoHead {
    /// In link order.
    pub elements: Vec<HeadElement>,
    /// How long the first encoded frame may take, in seconds.
    pub first_frame_timeout: u64,
    /// What is being captured, for the log.
    pub description: String,
}

/// What the video head needs to know.
#[derive(Debug)]
pub struct HeadSettings {
    pub game_capture_pid: Option<u32>,
    pub fps: u32,
    pub show_cursor: bool,
    pub stretch: bool,
    pub display: DisplaySelection,
}

/// `n` without its lowest bit: video has no odd sizes.
pub open spec fn even(n: u32) -> int {
    n - n % 2
}

fn to_even(n: u32) -> (r: u32)
    ensures
        r == even(n),
{
    n - n % 2
}

/// `n`, but nothing below zero.
pub open spec fn not_negative(n: i32) -> int {
    if n < 0 {
        0
    } else {
        n as int
    }
}

fn clip(n: i32) -> (r: u32)
    ensures
        r == not_negative(n),
{
    if n < 0 {
        0
    } else {
        n as u32
    }
}

/// The last place of a stretch that starts at `start`.
pub open spec fn end_of(start: int, length: int) -> int {
    if start + length == 0 {
        0
    } else {
        start + length - 1
    }
}

/// The size of a display as it is captured.
pub open spec fn size_of(m: MonitorInfo) -> Size {
    Size { width: even(m.width) as u32, height: even(m.height) as u32 }
}

/// Where a display stands in the root window.
pub open spec fn region_of(m: MonitorInfo) -> Region {
    Region {
        startx: not_negative(m.x) as u32,
        starty: not_negative(m.y) as u32,
        endx: end_of(not_negative(m.x), even(m.width)) as u32,
        endy: end_of(not_negative(m.y), even(m.height)) as u32,
    }
}

/// Whether the far corner of a display has coordinates.
pub open spec fn is_placed(m: MonitorInfo) -> bool {
    not_negative(m.x) + m.width <= u32::MAX && not_negative(m.y) + m.height <= u32::MAX
}

/// The display to capture, if there is one.
pub open spec fn target_of(monitors: Seq<MonitorInfo>, display: DisplaySelection) -> Option<
    MonitorInfo,
> {
    match display {
        DisplaySelection::Primary => super::monitors::primary_of(monitors),
        DisplaySelection::Monitor(id) => match crate::config::monitor_index(monitors, id@) {
            Some(i) => Some(monitors[i]),
            None => None,
        },
    }
}

/// The elements of the video head.
pub open spec fn head_elements(settings: HeadSettings, target: Option<MonitorInfo>) -> Seq<
    HeadElement,
> {
    let fps = crate::numbers::as_i32(
        if settings.fps < 1 {
            1
        } else {
            settings.fps
        },
    ) as i32;
    let size = match target {
        Some(m) => if settings.stretch {
            Some(size_of(m))
        } else {
            None
        },
        None => None,
    };
    seq![
        HeadElement::Source {
            show_pointer: settings.show_cursor,
            region: match target {
                Some(m) => Some(region_of(m)),
                None => None,
            },
        },
        HeadElement::RateFilter(fps),
        HeadElement::Rate,
        HeadElement::RateFilter(fps),
    ] + (if size is Some {
        seq![HeadElement::Scale]
    } else {
        Seq::empty()
    }) + seq![HeadElement::Convert, HeadElement::OutFilter(size)]
}

/// What is being captured.
pub open spec fn head_description(target: Option<MonitorInfo>) -> Seq<char> {
    match target {
        Some(m) => m.name@ + " ("@ + crate::text::dec(even(m.width) as nat) + "x"@
            + crate::text::dec(even(m.height) as nat) + ")"@,
        None => "the whole X11 screen"@,
    }
}

/// Whether the selected display is one by its id that is not there.
pub open spec fn display_is_missing(
    monitors: Seq<MonitorInfo>,
    display: DisplaySelection,
) -> bool {
    display is Monitor && target_of(monitors, display) is None
}

fn region(m: &MonitorInfo) -> (r: Region)
    requires
        is_placed(*m),
    ensures
        r == region_of(*m),
{
    Region {
        startx: clip(m.x),
        starty: clip(m.y),
        endx: (clip(m.x) + to_even(m.width)).saturating_sub(1),
        endy: (clip(m.y) + to_even(m.height)).saturating_sub(1),
    }
}

fn describe(target: Option<&MonitorInfo>) -> (r: String)
    ensures
        r@ == head_description(referred(target)),
{
    match target {
        Some(m) => {
            let mut text = join3(
                m.name.as_str(),
                " (",
                decimal(to_even(m.width) as u64).as_str(),
            );
            text.append("x");
            text.append(decimal(to_even(m.height) as u64).as_str());
            text.append(")");
            text
        },
        None => "the whole X11 screen".to_owned(),
    }
}

/// What a reference that may be missing refers to.
pub open spec fn referred(m: Option<&MonitorInfo>) -> Option<MonitorInfo> {
    match m {
        Some(m) => Some(*m),
        None => None,
    }
}

/// Finds the display to capture; the error is the id that no display has.
fn find_target<'a>(display: &DisplaySelection, monitors: &'a Vec<MonitorInfo>) -> (r: Result<
    Option<&'a MonitorInfo>,
    String,
>)
    requires
        forall|i: int| 0 <= i < monitors.len() ==> is_placed(#[trigger] monitors@[i]),
    ensures
        match r {
            Ok(target) => !display_is_missing(monitors@, *display) && referred(target)
                == target_of(monitors@, *display) && (target matches Some(m) ==> is_placed(*m)),
            Err(id) => display_is_missing(monitors@, *display) && *display
                == DisplaySelection::Monitor(id),
        },
{
    match display {
        DisplaySelection::Primary => {
            proof {
                primary_is_listed(monitors@);
            }
            Ok(find_primary(monitors))
        },
        DisplaySelection::Monitor(id) => match position_of_monitor(
            monitors.as_slice(),
            id.as_str(),
        ) {
            Some(i) => Ok(Some(&monitors[i])),
            None => Err(id.clone()),
        },
    }
}

fn plan_elements(settings: &HeadSettings, target: Option<&MonitorInfo>) -> (r: Vec<HeadElement>)
    requires
        target matches Some(m) ==> is_placed(*m),
    ensures
        r@ == head_elements(*settings, referred(target)),
{
    let fps: i32 = to_i32(
        if settings.fps < 1 {
            1
        } else {
            settings.fps
        },
    );
    let mut area: Option<Region> = None;
    let mut size: Option<Size> = None;
    if let Some(m) = target {
        area = Some(region(m));
        if settings.stretch {
            size = Some(Size { width: to_even(m.width), height: to_even(m.height) });
        }
    }
    let mut elements: Vec<HeadElement> = Vec::new();
    elements.push(HeadElement::Source { show_pointer: settings.show_cursor, region: area });
    elements.push(HeadElement::RateFilter(fps));
    // The source paces itself, but its timestamps drift under load; the
    // grid keeps the ring buffer math and the container frame rate honest.
    elements.push(HeadElement::Rate);
    elements.push(HeadElement::RateFilter(fps));
    if size.is_some() {
        elements.push(HeadElement::Scale);
    }
    elements.push(HeadElement::Convert);
    elements.push(HeadElement::OutFilter(size));
    assert(elements@ =~= head_elements(*settings, referred(target)));
    elements
}

/// Plans the video head. The root window spans every display; the region
/// limits the source to one. `display_set` says whether there is an X server
/// to ask, `monitors` is what it lists.
pub fn build_head(settings: &HeadSettings, display_set: bool, monitors: &Vec<MonitorInfo>) -> (r:
    Result<VideoHead, CaptureError>)
    requires
        forall|i: int| 0 <= i < monitors.len() ==> is_placed(#[trigger] monitors@[i]),
    ensures
        match r {
            Ok(head) => {
                let target = target_of(monitors@, settings.display);
                &&& settings.game_capture_pid is None
                &&& display_set
                &&& !display_is_missing(monitors@, settings.display)
                &&& head.elements@ == head_elements(*settings, target)
                &&& head.description@ == head_description(target)
                &&& head.first_frame_timeout == FIRST_FRAME_TIMEOUT
            },
            Err(CaptureError::GameCapture(text)) => settings.game_capture_pid is Some && text@
                == "game capture through a hook only exists on Windows"@,
            Err(CaptureError::PipelineBuild(text)) => settings.game_capture_pid is None
                && !display_set && text@ == "no X11 display to capture (DISPLAY is not set)"@,
            Err(CaptureError::MonitorNotFound(id)) => settings.game_capture_pid is None
                && display_set && display_is_missing(monitors@, settings.display)
                && settings.display == DisplaySelection::Monitor(id),
            Err(_) => false,
        },
{
    if settings.game_capture_pid.is_some() {
        return Err(
            CaptureError::GameCapture(
                "game capture through a hook only exists on Windows".to_owned(),
            ),
        );
    }
    if !display_set {
        return Err(
            CaptureError::PipelineBuild(
                "no X11 display to capture (DISPLAY is not set)".to_owned(),
            ),
        );
    }
    match find_target(&settings.display, monitors) {
        Ok(target) => Ok(
            VideoHead {
                elements: plan_elements(settings, target),
                first_frame_timeout: FIRST_FRAME_TIMEOUT,
                description: describe(target),
            },
        ),
        Err(id) => Err(CaptureError::MonitorNotFound(id)),
    }
}

proof fn primary_is_listed(monitors: Seq<MonitorInfo>)
    ensures
        super::monitors::primary_of(monitors) matches Some(m) ==> exists|i: int|
            0 <= i < monitors.len() && #[trigger] monitors[i] == m,
    decreases monitors.len(),
{
    if monitors.len() > 0 && !monitors[0].primary {
        primary_is_listed(monitors.drop_first());
        if let Some(m) = super::monitors::primary_of(monitors) {
            let rest = monitors.drop_first();
            let i = choose|i: int| 0 <= i < rest.len() && #[trigger] rest[i] == m;
            assert(monitors[i + 1] == m);
        }
    } else if monitors.len() > 0 {
        assert(monitors[0] == super::monitors::primary_of(monitors)->0);
    }
}

/// The captured region starts where the display does and has its size, without an
/// odd row or column.
pub proof fn the_region_is_that_of_the_display(m: MonitorInfo)
    requires
        is_placed(m),
        m.x >= 0,
        m.y >= 0,
        m.width >= 2,
        m.height >= 2,
    ensures
        ({
            let r = region_of(m);
            let s = size_of(m);
            &&& r.startx == m.x && r.starty == m.y
            &&& r.endx - r.startx + 1 == s.width
            &&& r.endy - r.starty + 1 == s.height
            &&& s.width % 2 == 0 && s.height % 2 == 0
            &&& m.width - 1 <= s.width <= m.width
            &&& m.height - 1 <= s.height <= m.height
        }),
{
}

/// The display that is captured is the one that was chosen, by its id, or the
/// primary one.
pub proof fn the_chosen_display_is_captured(monitors: Seq<MonitorInfo>, i: int)
    requires
        0 <= i < monitors.len(),
        forall|k: int| 0 <= k < i ==> (#[trigger] monitors[k]).id@ != monitors[i].id@,
        forall|k: int| 0 <= k < i ==> !(#[trigger] monitors[k]).primary,
    ensures
        target_of(monitors, DisplaySelection::Monitor(monitors[i].id)) == Some(monitors[i]),
        monitors[i].primary ==> target_of(monitors, DisplaySelection::Primary) == Some(monitors[i]),
{
    super::monitors::the_primary_display_is_found(monitors, i);
    crate::config::monitor_index_is_first(monitors, monitors[i].id@);
}

/// The pointer is drawn as the user wants it, the region is that of the display,
/// and the picture is scaled only where it is stretched.
pub proof fn the_head_follows_the_settings(settings: HeadSettings, target: Option<MonitorInfo>)
    ensures
        ({
            let elements = head_elements(settings, target);
            &&& elements.len() > 4
            &&& elements[0] matches HeadElement::Source { show_pointer, region } && show_pointer
                == settings.show_cursor && (region is Some <==> target is Some)
            &&& target is Some ==> (elements[0] matches HeadElement::Source { region, .. }
                && region == Some(region_of(target->0)))
            &&& 1 <= settings.fps <= i32::MAX ==> elements[1] == HeadElement::RateFilter(
                settings.fps as i32,
            )
            &&& elements.contains(HeadElement::Scale) <==> target is Some && settings.stretch
        }),
{
    let elements = head_elements(settings, target);
    if target is Some && settings.stretch {
        assert(elements[4] == HeadElement::Scale);
    }
}

} // verus!
