//! Monitor layout from the X server.
use vstd::prelude::*;

use super::processes::from_utf8_lossy;
use crate::config::MonitorInfo;

verus! {

/// The refresh rate of a mode: its pixel clock over the pixels of a frame,
/// rounded half up, and nothing for a frame without pixels.
pub open spec fn rate_of(dot_clock: u32, htotal: u16, vtotal: u16) -> nat {
    let total = htotal as nat * vtotal as nat;
    if total == 0 {
        0
    } else {
        (dot_clock as nat + total / 2) / total
    }
}

/// The refresh rate of a mode in Hz.
pub fn refresh_rate(dot_clock: u32, htotal: u16, vtotal: u16) -> (r: u32)
    ensures
        r == rate_of(dot_clock, htotal, vtotal),
{
    assert(0 <= htotal * vtotal <= 0xfffe_0001) by (nonlinear_arith)
        requires
            0 <= htotal <= 0xffff,
            0 <= vtotal <= 0xffff,
    ;
    let total: u64 = htotal as u64 * vtotal as u64;
    if total == 0 {
        return 0;
    }
    let rate: u64 = (dot_clock as u64 + total / 2) / total;
    assert(rate <= 0xffff_ffff) by (nonlinear_arith)
        requires
            rate == (dot_clock as u64 + total / 2) / total as int,
            dot_clock <= 0xffff_ffff,
            1 <= total <= 0xfffe_0001,
    ;
    rate as u32
}

/// A mode that a display can be in.
#[derive(Debug, Clone, Copy, PartialEq, Eq, Structural)]
pub struct Mode {
    pub id: u32,
    pub dot_clock: u32,
    pub htotal: u16,
    pub vtotal: u16,
}

/// A display as the X server lists it. `mode` is that of what drives its first
/// output, missing where nothing does.
#[derive(Debug)]
pub struct ListedMonitor {
    pub name: Vec<u8>,
    pub width: u16,
    pub height: u16,
    pub x: i16,
    pub y: i16,
    pub primary: bool,
    pub mode: Option<u32>,
}

/// The mode with this number.
pub open spec fn is_mode(id: u32) -> spec_fn(Mode) -> bool {
    |m: Mode| m.id == id
}

/// The refresh rate of a display, zero where it is unknown.
pub open spec fn listed_rate(monitor: ListedMonitor, modes: Seq<Mode>) -> nat {
    match monitor.mode {
        Some(id) => match crate::lists::first_where(modes, is_mode(id)) {
            Some(i) => rate_of(modes[i].dot_clock, modes[i].htotal, modes[i].vtotal),
            None => 0,
        },
        None => 0,
    }
}

fn find_rate(monitor: &ListedMonitor, modes: &Vec<Mode>) -> (r: u32)
    ensures
        r == listed_rate(*monitor, modes@),
{
    let id: u32 = match monitor.mode {
        Some(id) => id,
        None => return 0,
    };
    let mut i: usize = 0;
    while i < modes.len()
        invariant
            i <= modes.len(),
            monitor.mode == Some(id),
            forall|k: int| 0 <= k < i ==> !is_mode(id)(#[trigger] modes@[k]),
        decreases modes.len() - i,
    {
        if modes[i].id == id {
            proof {
                crate::lists::first_where_is_first(modes@, is_mode(id));
                assert(is_mode(id)(modes@[i as int]));
            }
            return refresh_rate(modes[i].dot_clock, modes[i].htotal, modes[i].vtotal);
        }
        i = i + 1;
    }
    proof {
        crate::lists::first_where_is_first(modes@, is_mode(id));
    }
    0
}

/// What a listed display becomes. Its output name is stable across sessions
/// and serves as its id.
pub open spec fn listed_view(
    monitor: ListedMonitor,
    modes: Seq<Mode>,
) -> crate::config::MonitorView {
    let name = super::processes::lossy_text(monitor.name@);
    crate::config::MonitorView {
        id: name,
        name,
        width: monitor.width as u32,
        height: monitor.height as u32,
        x: monitor.x as i32,
        y: monitor.y as i32,
        refresh_hz: listed_rate(monitor, modes) as u32,
        primary: monitor.primary,
    }
}

/// Whether no listed display is the primary one.
pub open spec fn none_is_primary(listed: Seq<ListedMonitor>) -> bool {
    forall|i: int| 0 <= i < listed.len() ==> !(#[trigger] listed[i]).primary
}

/// The displays that the X server lists, the first one as the primary one
/// where none is.
pub fn query(listed: &Vec<ListedMonitor>, modes: &Vec<Mode>) -> (r: Vec<MonitorInfo>)
    ensures
        r.len() == listed.len(),
        forall|i: int|
            0 <= i < r.len() ==> (#[trigger] r@[i])@ == (crate::config::MonitorView {
                primary: listed@[i].primary || i == 0 && none_is_primary(listed@),
                ..listed_view(listed@[i], modes@)
            }),
{
    let mut out: Vec<MonitorInfo> = Vec::new();
    let mut i: usize = 0;
    while i < listed.len()
        invariant
            i <= listed.len(),
            out.len() == i,
            forall|k: int| 0 <= k < i ==> (#[trigger] out@[k])@ == listed_view(listed@[k], modes@),
        decreases listed.len() - i,
    {
        let m = &listed[i];
        let name = from_utf8_lossy(m.name.as_slice());
        out.push(
            MonitorInfo {
                id: name.clone(),
                name,
                width: m.width as u32,
                height: m.height as u32,
                x: m.x as i32,
                y: m.y as i32,
                refresh_hz: find_rate(m, modes),
                primary: m.primary,
            },
        );
        i = i + 1;
    }
    let ghost before = out@;
    ensure_primary(&mut out);
    proof {
        assert forall|k: int| 0 <= k < listed.len() implies #[trigger] listed@[k].primary
            == before[k].primary by {
            assert(before[k]@ == listed_view(listed@[k], modes@));
        }
        assert forall|k: int| 0 <= k < out.len() implies (#[trigger] out@[k])@ == (
        crate::config::MonitorView {
            primary: listed@[k].primary || k == 0 && none_is_primary(listed@),
            ..listed_view(listed@[k], modes@)
        }) by {
            assert(before[k]@ == listed_view(listed@[k], modes@));
            if none_is_primary(listed@) {
                assert forall|j: int| 0 <= j < before.len() implies !(
                #[trigger] before[j]).primary by {
                    assert(!listed@[j].primary);
                }
            } else {
                let j = choose|j: int| 0 <= j < listed.len() && (#[trigger] listed@[j]).primary;
                assert(before[j].primary);
                assert(with_primary(before) == before);
            }
        }
    }
    out
}

/// The displays with one of them marked as the primary one.
pub open spec fn with_primary(monitors: Seq<MonitorInfo>) -> Seq<MonitorInfo> {
    if monitors.len() > 0 && (forall|i: int|
        0 <= i < monitors.len() ==> !(#[trigger] monitors[i]).primary) {
        monitors.update(0, MonitorInfo { primary: true, ..monitors[0] })
    } else {
        monitors
    }
}

/// Marks the first display as the primary one when none is.
pub fn ensure_primary(monitors: &mut Vec<MonitorInfo>)
    ensures
        final(monitors)@ == with_primary(old(monitors)@),
{
    let mut i: usize = 0;
    while i < monitors.len()
        invariant
            i <= monitors.len(),
            monitors@ == old(monitors)@,
            forall|k: int| 0 <= k < i ==> !(#[trigger] monitors@[k]).primary,
        decreases monitors.len() - i,
    {
        if monitors[i].primary {
            assert(monitors@[i as int].primary);
            return ;
        }
        i = i + 1;
    }
    if monitors.len() > 0 {
        let mut first = monitors[0].clone();
        first.primary = true;
        monitors[0] = first;
    }
}

/// When there are displays at all, one of them is the primary one.
pub proof fn some_display_is_primary(monitors: Seq<MonitorInfo>)
    requires
        monitors.len() > 0,
    ensures
        exists|i: int|
            0 <= i < with_primary(monitors).len() && (#[trigger] with_primary(
                monitors,
            )[i]).primary,
{
    if forall|i: int| 0 <= i < monitors.len() ==> !(#[trigger] monitors[i]).primary {
        assert(with_primary(monitors)[0].primary);
    } else {
        let i = choose|i: int| 0 <= i < monitors.len() && (#[trigger] monitors[i]).primary;
        assert(with_primary(monitors)[i].primary);
    }
}

/// The first display that is the primary one.
pub open spec fn primary_of(monitors: Seq<MonitorInfo>) -> Option<MonitorInfo>
    decreases monitors.len(),
{
    if monitors.len() == 0 {
        None
    } else if monitors[0].primary {
        Some(monitors[0])
    } else {
        primary_of(monitors.drop_first())
    }
}

/// The first display that is the primary one.
pub fn find_primary(monitors: &Vec<MonitorInfo>) -> (r: Option<&MonitorInfo>)
    ensures
        match r {
            Some(m) => primary_of(monitors@) == Some(*m),
            None => primary_of(monitors@) is None,
        },
{
    let mut i: usize = 0;
    assert(monitors@.skip(0) =~= monitors@);
    while i < monitors.len()
        invariant
            i <= monitors.len(),
            primary_of(monitors@) == primary_of(monitors@.skip(i as int)),
        decreases monitors.len() - i,
    {
        assert(monitors@.skip(i as int).drop_first() =~= monitors@.skip(i + 1));
        if monitors[i].primary {
            return Some(&monitors[i]);
        }
        i = i + 1;
    }
    None
}

/// The refresh rate is the pixel clock over the pixels of a frame, rounded: no
/// other whole number is nearer.
pub proof fn a_rate_is_the_nearest_whole_number(dot_clock: u32, htotal: u16, vtotal: u16)
    requires
        htotal > 0,
        vtotal > 0,
    ensures
        ({
            let total = htotal as int * vtotal as int;
            let rate = rate_of(dot_clock, htotal, vtotal) as int;
            2 * rate * total <= 2 * dot_clock + total && 2 * dot_clock < 2 * rate * total + total
                + 2
        }),
{
    let total = htotal as int * vtotal as int;
    assert(total > 0) by (nonlinear_arith)
        requires
            htotal > 0,
            vtotal > 0,
            total == htotal as int * vtotal as int,
    ;
    let n = dot_clock + total / 2;
    let q = n / total;
    assert(q * total <= n < q * total + total) by (nonlinear_arith)
        requires
            total > 0,
            q == n / total,
    ;
    assert(2 * q * total == 2 * (q * total)) by (nonlinear_arith);
}

/// A display that is listed twice as primary, or not at all, still has one primary
/// display in front: the first of them.
pub proof fn the_primary_display_is_found(monitors: Seq<MonitorInfo>, i: int)
    ensures
        0 <= i < monitors.len() && monitors[i].primary && (forall|k: int|
            0 <= k < i ==> !(#[trigger] monitors[k]).primary) ==> primary_of(monitors) == Some(
            monitors[i],
        ),
        (forall|k: int| 0 <= k < monitors.len() ==> !(#[trigger] monitors[k]).primary)
            ==> primary_of(monitors) is None,
    decreases monitors.len(),
{
    if monitors.len() > 0 {
        let rest = monitors.drop_first();
        assert(forall|k: int| 0 <= k < rest.len() ==> rest[k] == monitors[k + 1]);
        the_primary_display_is_found(rest, i - 1);
        if !monitors[0].primary && 0 < i < monitors.len() {
            assert(rest[i - 1] == monitors[i]);
        }
    }
}

/// Marking a primary display changes nothing else, and nothing at all where there
/// is one.
pub proof fn only_the_mark_of_the_primary_changes(monitors: Seq<MonitorInfo>, i: int)
    requires
        0 <= i < monitors.len(),
    ensures
        with_primary(monitors).len() == monitors.len(),
        with_primary(monitors)[i] == (MonitorInfo {
            primary: with_primary(monitors)[i].primary,
            ..monitors[i]
        }),
        monitors[i].primary ==> with_primary(monitors) == monitors,
        i > 0 ==> with_primary(monitors)[i] == monitors[i],
{
}

} // verus!
