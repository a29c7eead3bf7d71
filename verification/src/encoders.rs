//! Discovery and configuration of H.264 encoders, as data: which elements are
//! looked for, and which properties each of them gets.
use vstd::prelude::*;

use crate::config::{EncoderInfo, EncoderKind};
use crate::text::{find_last, join2, join3, list_contains, same, slice_of, trim};

verus! {

/// A candidate encoder. `gpu_input` marks encoders that accept frames in
/// the GPU memory the platform's video head produces, which avoids a
/// readback for every frame.
#[derive(Debug, Clone, Copy)]
pub struct EncoderSpec {
    pub kind: EncoderKind,
    pub element: &'static str,
    pub gpu_input: bool,
}

/// The H.264 encoders to look for on Linux, best first. All of them take
/// system memory.
pub open spec fn linux_candidates() -> Seq<EncoderSpec> {
    seq![
        EncoderSpec { kind: EncoderKind::Nvenc, element: "nvh264enc", gpu_input: false },
        EncoderSpec { kind: EncoderKind::QuickSync, element: "qsvh264enc", gpu_input: false },
        EncoderSpec { kind: EncoderKind::Vaapi, element: "vah264enc", gpu_input: false },
        EncoderSpec { kind: EncoderKind::Vaapi, element: "vah264lpenc", gpu_input: false },
        EncoderSpec { kind: EncoderKind::Vaapi, element: "vaapih264enc", gpu_input: false },
        EncoderSpec { kind: EncoderKind::Software, element: "x264enc", gpu_input: false },
        EncoderSpec { kind: EncoderKind::Software, element: "openh264enc", gpu_input: false },
    ]
}

/// The H.264 encoders to look for on Linux, best first.
pub fn linux_encoders() -> (r: Vec<EncoderSpec>)
    ensures
        r@ == linux_candidates(),
{
    let mut v: Vec<EncoderSpec> = Vec::new();
    v.push(EncoderSpec { kind: EncoderKind::Nvenc, element: "nvh264enc", gpu_input: false });
    v.push(EncoderSpec { kind: EncoderKind::QuickSync, element: "qsvh264enc", gpu_input: false });
    v.push(EncoderSpec { kind: EncoderKind::Vaapi, element: "vah264enc", gpu_input: false });
    v.push(EncoderSpec { kind: EncoderKind::Vaapi, element: "vah264lpenc", gpu_input: false });
    v.push(EncoderSpec { kind: EncoderKind::Vaapi, element: "vaapih264enc", gpu_input: false });
    v.push(EncoderSpec { kind: EncoderKind::Software, element: "x264enc", gpu_input: false });
    v.push(EncoderSpec { kind: EncoderKind::Software, element: "openh264enc", gpu_input: false });
    assert(v@ =~= linux_candidates());
    v
}

/// The first candidate with this element.
pub open spec fn spec_of(candidates: Seq<EncoderSpec>, element: Seq<char>) -> Option<EncoderSpec>
    decreases candidates.len(),
{
    if candidates.len() == 0 {
        None
    } else if candidates[0].element@ == element {
        Some(candidates[0])
    } else {
        spec_of(candidates.drop_first(), element)
    }
}

/// The first candidate with this element.
pub fn spec_for(candidates: &Vec<EncoderSpec>, element: &str) -> (r: Option<EncoderSpec>)
    ensures
        r == spec_of(candidates@, element@),
{
    let mut i: usize = 0;
    assert(candidates@.skip(0) =~= candidates@);
    while i < candidates.len()
        invariant
            i <= candidates.len(),
            spec_of(candidates@, element@) == spec_of(candidates@.skip(i as int), element@),
        decreases candidates.len() - i,
    {
        assert(candidates@.skip(i as int).drop_first() =~= candidates@.skip(i + 1));
        if same(candidates[i].element, element) {
            return Some(candidates[i]);
        }
        i = i + 1;
    }
    None
}

/// What a list of encoders says.
pub open spec fn encoder_views(list: Seq<EncoderInfo>) -> Seq<crate::config::EncoderView> {
    list.map_values(|e: EncoderInfo| e@)
}

/// Whether an encoder of this kind is in the list.
pub open spec fn has_kind(list: Seq<crate::config::EncoderView>, kind: EncoderKind) -> bool {
    exists|i: int| 0 <= i < list.len() && (#[trigger] list[i]).kind == kind
}

/// The registered candidates, one per kind, best first.
pub open spec fn found(
    candidates: Seq<EncoderSpec>,
    registered: Seq<Seq<char>>,
) -> Seq<crate::config::EncoderView>
    decreases candidates.len(),
{
    if candidates.len() == 0 {
        Seq::empty()
    } else {
        let before = found(candidates.drop_last(), registered);
        let c = candidates.last();
        if has_kind(before, c.kind) || !registered.contains(c.element@) {
            before
        } else {
            before.push(crate::config::EncoderView { kind: c.kind, element: c.element@ })
        }
    }
}

fn any_kind(list: &Vec<EncoderInfo>, kind: EncoderKind) -> (r: bool)
    ensures
        r == has_kind(encoder_views(list@), kind),
{
    let ghost all = encoder_views(list@);
    let mut i: usize = 0;
    while i < list.len()
        invariant
            i <= list.len(),
            all == encoder_views(list@),
            forall|k: int| 0 <= k < i ==> (#[trigger] all[k]).kind != kind,
        decreases list.len() - i,
    {
        if list[i].kind == kind {
            assert(all[i as int].kind == kind);
            return true;
        }
        i = i + 1;
    }
    false
}

/// Lists the registered candidates, one per kind, best first. The hardware
/// plugins only register their elements when the driver and a capable GPU
/// are present, so registration is a meaningful first filter.
pub fn discover(candidates: &Vec<EncoderSpec>, registered: &Vec<String>) -> (r: Vec<EncoderInfo>)
    ensures
        encoder_views(r@) == found(candidates@, crate::text::views(registered@)),
{
    let ghost names = crate::text::views(registered@);
    let mut list: Vec<EncoderInfo> = Vec::new();
    let mut i: usize = 0;
    assert(encoder_views(list@) =~= found(candidates@.take(0), names));
    while i < candidates.len()
        invariant
            i <= candidates.len(),
            names == crate::text::views(registered@),
            encoder_views(list@) == found(candidates@.take(i as int), names),
        decreases candidates.len() - i,
    {
        let candidate = candidates[i];
        assert(candidates@.take(i + 1).drop_last() =~= candidates@.take(i as int));
        if !any_kind(&list, candidate.kind) && list_contains(registered, candidate.element) {
            let ghost before = encoder_views(list@);
            let info = EncoderInfo { kind: candidate.kind, element: candidate.element.to_owned() };
            list.push(info);
            assert(encoder_views(list@) =~= before.push(info@));
        }
        i = i + 1;
    }
    assert(candidates@.take(i as int) =~= candidates@);
    list
}

/// No kind of encoder is listed twice, and everything listed is registered.
pub proof fn one_encoder_per_kind(candidates: Seq<EncoderSpec>, registered: Seq<Seq<char>>)
    ensures
        forall|i: int, j: int|
            0 <= i < j < found(candidates, registered).len() ==> (#[trigger] found(
                candidates,
                registered,
            )[i]).kind != (#[trigger] found(candidates, registered)[j]).kind,
        forall|i: int|
            0 <= i < found(candidates, registered).len() ==> registered.contains(
                (#[trigger] found(candidates, registered)[i]).element,
            ),
    decreases candidates.len(),
{
    if candidates.len() > 0 {
        one_encoder_per_kind(candidates.drop_last(), registered);
    }
}

/// The value of a property. An enumeration is set by nick, what a sink takes
/// by a media type with its fields.
#[derive(Debug, Clone, Copy)]
pub enum Value {
    Number(i64),
    Switch(bool),
    Nick(&'static str),
    Caps(&'static str),
}

/// A property of an element and its value.
#[derive(Debug, Clone, Copy)]
pub struct Setting {
    pub name: &'static str,
    pub value: Value,
}

/// What an encoder is tuned to.
#[derive(Debug, Clone, Copy, PartialEq, Eq, Structural)]
pub struct EncoderTuning {
    pub bitrate_kbps: u32,
    pub keyframe_interval: u32,
}

pub open spec fn number(name: &'static str, value: int) -> Setting {
    Setting { name, value: Value::Number(value as i64) }
}

pub open spec fn switch(name: &'static str) -> Setting {
    Setting { name, value: Value::Switch(true) }
}

pub open spec fn nick(name: &'static str, value: &'static str) -> Setting {
    Setting { name, value: Value::Nick(value) }
}

fn num(name: &'static str, value: i64) -> (r: Setting)
    ensures
        r == number(name, value as int),
{
    Setting { name, value: Value::Number(value) }
}

fn on(name: &'static str) -> (r: Setting)
    ensures
        r == switch(name),
{
    Setting { name, value: Value::Switch(true) }
}

fn named(name: &'static str, value: &'static str) -> (r: Setting)
    ensures
        r == nick(name, value),
{
    Setting { name, value: Value::Nick(value) }
}

/// The properties of an encoder: a low latency, constant bitrate profile
/// without B-frames in each encoder's own vocabulary.
pub open spec fn profile_of(
    kind: EncoderKind,
    element: Seq<char>,
    tuning: EncoderTuning,
) -> Seq<Setting> {
    let bitrate = tuning.bitrate_kbps as int;
    let gop = tuning.keyframe_interval as int;
    match kind {
        EncoderKind::Nvenc => seq![
            number("bitrate", bitrate),
            number("max-bitrate", bitrate),
            number("gop-size", gop),
            number("bframes", 0),
            switch("repeat-sequence-header"),
            switch("zerolatency"),
            nick("rc-mode", "cbr"),
            nick("preset", "p4"),
            nick("tune", "low-latency"),
        ],
        EncoderKind::QuickSync => seq![
            number("bitrate", bitrate),
            number("max-bitrate", bitrate),
            number("gop-size", gop),
            number("b-frames", 0),
            number("bframes", 0),
            nick("rate-control", "cbr"),
            switch("low-latency"),
        ],
        EncoderKind::Amf => seq![
            number("bitrate", bitrate),
            number("max-bitrate", bitrate),
            number("gop-size", gop),
            number("max-b-frames", 0),
            nick("rate-control", "cbr"),
            nick("usage", "ultra-low-latency"),
        ],
        EncoderKind::Vaapi => seq![
            number("bitrate", bitrate),
            number("key-int-max", gop),
            number("keyframe-period", gop),
            number("b-frames", 0),
            number("max-bframes", 0),
            nick("rate-control", "cbr"),
            number("target-usage", 4),
        ],
        EncoderKind::MediaFoundation => seq![
            number("bitrate", bitrate),
            number("max-bitrate", bitrate),
            number("gop-size", gop),
            number("bframes", 0),
            nick("rc-mode", "cbr"),
            switch("low-latency"),
        ],
        EncoderKind::Software => if element == "openh264enc"@ {
            seq![
                number("bitrate", bitrate * 1000),
                number("max-bitrate", bitrate * 1000),
                number("gop-size", gop),
                nick("rate-control", "bitrate"),
                nick("usage-type", "screen"),
                nick("complexity", "low"),
            ]
        } else {
            seq![
                number("bitrate", bitrate),
                number("key-int-max", gop),
                number("bframes", 0),
                nick("tune", "zerolatency"),
                nick("speed-preset", "veryfast"),
                nick("pass", "cbr"),
            ]
        },
    }
}

/// The properties of an encoder, in the order in which they are set: a common
/// low latency, constant bitrate, no B-frame profile in each encoder's own
/// vocabulary. A property that an element does not have is skipped when it is
/// set. OpenH264 counts in bits.
pub fn configure(spec: EncoderSpec, tuning: EncoderTuning) -> (r: Vec<Setting>)
    ensures
        r@ == profile_of(spec.kind, spec.element@, tuning),
{
    let bitrate: i64 = tuning.bitrate_kbps as i64;
    let gop: i64 = tuning.keyframe_interval as i64;
    let mut v: Vec<Setting> = Vec::new();
    match spec.kind {
        EncoderKind::Nvenc => {
            v.push(num("bitrate", bitrate));
            v.push(num("max-bitrate", bitrate));
            v.push(num("gop-size", gop));
            v.push(num("bframes", 0));
            v.push(on("repeat-sequence-header"));
            v.push(on("zerolatency"));
            v.push(named("rc-mode", "cbr"));
            v.push(named("preset", "p4"));
            v.push(named("tune", "low-latency"));
        },
        EncoderKind::QuickSync => {
            v.push(num("bitrate", bitrate));
            v.push(num("max-bitrate", bitrate));
            v.push(num("gop-size", gop));
            v.push(num("b-frames", 0));
            v.push(num("bframes", 0));
            v.push(named("rate-control", "cbr"));
            v.push(on("low-latency"));
        },
        EncoderKind::Amf => {
            v.push(num("bitrate", bitrate));
            v.push(num("max-bitrate", bitrate));
            v.push(num("gop-size", gop));
            v.push(num("max-b-frames", 0));
            v.push(named("rate-control", "cbr"));
            v.push(named("usage", "ultra-low-latency"));
        },
        EncoderKind::Vaapi => {
            // The newer and the older element spell the same settings
            // differently; each ignores the other's names.
            v.push(num("bitrate", bitrate));
            v.push(num("key-int-max", gop));
            v.push(num("keyframe-period", gop));
            v.push(num("b-frames", 0));
            v.push(num("max-bframes", 0));
            v.push(named("rate-control", "cbr"));
            v.push(num("target-usage", 4));
        },
        EncoderKind::MediaFoundation => {
            v.push(num("bitrate", bitrate));
            v.push(num("max-bitrate", bitrate));
            v.push(num("gop-size", gop));
            v.push(num("bframes", 0));
            v.push(named("rc-mode", "cbr"));
            v.push(on("low-latency"));
        },
        EncoderKind::Software => {
            if same(spec.element, "openh264enc") {
                v.push(num("bitrate", bitrate * 1000));
                v.push(num("max-bitrate", bitrate * 1000));
                v.push(num("gop-size", gop));
                v.push(named("rate-control", "bitrate"));
                v.push(named("usage-type", "screen"));
                v.push(named("complexity", "low"));
            } else {
                v.push(num("bitrate", bitrate));
                v.push(num("key-int-max", gop));
                v.push(num("bframes", 0));
                v.push(named("tune", "zerolatency"));
                v.push(named("speed-preset", "veryfast"));
                v.push(named("pass", "cbr"));
            }
        },
    }
    assert(v@ =~= profile_of(spec.kind, spec.element@, tuning));
    v
}

/// Every encoder is given the bitrate first, in the unit it counts in, and a
/// keyframe interval.
pub proof fn every_profile_sets_the_bitrate(
    kind: EncoderKind,
    element: Seq<char>,
    tuning: EncoderTuning,
)
    ensures
        ({
            let profile = profile_of(kind, element, tuning);
            let factor: int = if kind == EncoderKind::Software && element == "openh264enc"@ {
                1000
            } else {
                1
            };
            &&& profile.len() > 2
            &&& profile[0] == number("bitrate", tuning.bitrate_kbps * factor)
            &&& exists|i: int|
                0 <= i < profile.len() && (#[trigger] profile[i] == number(
                    "gop-size",
                    tuning.keyframe_interval as int,
                ) || profile[i] == number("key-int-max", tuning.keyframe_interval as int))
        }),
{
    let profile = profile_of(kind, element, tuning);
    let gop = tuning.keyframe_interval as int;
    assert(profile[1] == number("key-int-max", gop) || profile[2] == number("gop-size", gop));
}

/// The numeric types of a property.
#[derive(Debug, Clone, Copy, PartialEq, Eq, Structural)]
pub enum NumberType {
    U32,
    I32,
    U64,
    I64,
    F64,
}

/// A number in the type of its property.
#[derive(Debug, Clone, Copy, PartialEq, Eq, Structural)]
pub enum TypedNumber {
    U32(u32),
    I32(i32),
    U64(u64),
    I64(i64),
    /// A floating point property takes the number as it is.
    F64(i64),
}

/// The value that a property of a numeric type gets: the nearest one that the
/// type holds.
pub fn set_number(property: NumberType, value: i64) -> (r: TypedNumber)
    ensures
        match (property, r) {
            (NumberType::U32, TypedNumber::U32(n)) => n == crate::settings::clamped(
                value as int,
                0,
                u32::MAX as int,
            ),
            (NumberType::I32, TypedNumber::I32(n)) => n == crate::settings::clamped(
                value as int,
                i32::MIN as int,
                i32::MAX as int,
            ),
            (NumberType::U64, TypedNumber::U64(n)) => n == if value < 0 {
                0
            } else {
                value as int
            },
            (NumberType::I64, TypedNumber::I64(n)) => n == value,
            (NumberType::F64, TypedNumber::F64(n)) => n == value,
            _ => false,
        },
{
    match property {
        NumberType::U32 => TypedNumber::U32(
            if value < 0 {
                0
            } else if value > 0xffff_ffff {
                0xffff_ffff
            } else {
                value as u32
            },
        ),
        NumberType::I32 => TypedNumber::I32(
            if value < -0x8000_0000 {
                i32::MIN
            } else if value > 0x7fff_ffff {
                i32::MAX
            } else {
                value as i32
            },
        ),
        NumberType::U64 => TypedNumber::U64(
            if value < 0 {
                0
            } else {
                value as u64
            },
        ),
        NumberType::I64 => TypedNumber::I64(value),
        NumberType::F64 => TypedNumber::F64(value),
    }
}

/// The last part of a debug text between colons that is not blank, without
/// the white space around it; empty when there is none.
pub open spec fn debug_detail(debug: Seq<char>) -> Seq<char>
    decreases debug.len(),
{
    let i = crate::text::last_index(debug, ':');
    if i < 0 || i >= debug.len() {
        crate::text::trimmed(debug)
    } else {
        let part = crate::text::trimmed(debug.skip(i + 1));
        if part.len() > 0 {
            part
        } else {
            debug_detail(debug.take(i))
        }
    }
}

fn find_detail(chars: &[char], end: usize) -> (r: String)
    requires
        end <= chars.len(),
    ensures
        r@ == debug_detail(chars@.take(end as int)),
    decreases end,
{
    let ghost s = chars@.take(end as int);
    let text = slice_of(chars, 0, end);
    assert(text@ =~= s);
    let piece = crate::text::chars_of(text.as_str());
    match find_last(piece.as_slice(), ':') {
        None => trim(text.as_str()),
        Some(i) => {
            let tail = slice_of(piece.as_slice(), i + 1, end);
            assert(tail@ =~= s.skip(i + 1));
            let part = trim(tail.as_str());
            if part.as_str().unicode_len() > 0 {
                part
            } else {
                assert(s.take(i as int) =~= chars@.take(i as int));
                find_detail(chars, i)
            }
        },
    }
}

/// Turns a bus error into one readable line: the error text plus the last,
/// most specific part of the debug string.
pub fn describe_error(error: &str, debug: &str) -> (r: String)
    ensures
        r@ == (if debug_detail(debug@).len() == 0 {
            error@
        } else {
            error@ + " ("@ + debug_detail(debug@) + ")"@
        }),
{
    let chars = crate::text::chars_of(debug);
    let detail = find_detail(chars.as_slice(), chars.len());
    assert(chars@.take(chars@.len() as int) =~= debug@);
    if detail.as_str().unicode_len() == 0 {
        error.to_owned()
    } else {
        let text = join3(error, " (", detail.as_str());
        join2(text.as_str(), ")")
    }
}

/// A candidate that is registered is listed, unless a better one of its kind is:
/// then that one is.
pub proof fn every_registered_kind_is_listed(
    candidates: Seq<EncoderSpec>,
    registered: Seq<Seq<char>>,
    i: int,
)
    requires
        0 <= i < candidates.len(),
        registered.contains(candidates[i].element@),
    ensures
        exists|k: int|
            0 <= k < found(candidates, registered).len() && (#[trigger] found(
                candidates,
                registered,
            )[k]).kind == candidates[i].kind,
        (forall|j: int|
            0 <= j < i ==> (#[trigger] candidates[j]).kind != candidates[i].kind
                || !registered.contains(candidates[j].element@)) ==> found(
            candidates,
            registered,
        ).contains(
            crate::config::EncoderView {
                kind: candidates[i].kind,
                element: candidates[i].element@,
            },
        ),
    decreases candidates.len(),
{
    let front = candidates.drop_last();
    let before = found(front, registered);
    let all = found(candidates, registered);
    let own = crate::config::EncoderView {
        kind: candidates[i].kind,
        element: candidates[i].element@,
    };
    if i < front.len() {
        every_registered_kind_is_listed(front, registered, i);
        let k = choose|k: int|
            0 <= k < before.len() && (#[trigger] before[k]).kind == front[i].kind;
        assert(all[k].kind == candidates[i].kind);
        if before.contains(own) {
            let m = choose|m: int| 0 <= m < before.len() && before[m] == own;
            assert(all[m] == own);
        }
        if forall|j: int|
            0 <= j < i ==> (#[trigger] candidates[j]).kind != candidates[i].kind
                || !registered.contains(candidates[j].element@) {
            assert forall|j: int| 0 <= j < i implies (#[trigger] front[j]).kind != front[i].kind
                || !registered.contains(front[j].element@) by {
                assert(candidates[j].kind != candidates[i].kind || !registered.contains(
                    candidates[j].element@,
                ));
            }
        }
    } else {
        listed_come_from_candidates(front, registered);
        if has_kind(before, candidates[i].kind) {
            let k = choose|k: int|
                0 <= k < before.len() && (#[trigger] before[k]).kind == candidates[i].kind;
            assert(all[k].kind == candidates[i].kind);
            let j = choose|j: int|
                0 <= j < front.len() && (#[trigger] front[j]).kind == before[k].kind
                    && front[j].element@ == before[k].element && registered.contains(
                    front[j].element@,
                );
            assert(candidates[j].kind == candidates[i].kind);
        } else {
            assert(all[before.len() as int] == own);
        }
    }
}

proof fn listed_come_from_candidates(candidates: Seq<EncoderSpec>, registered: Seq<Seq<char>>)
    ensures
        forall|k: int|
            0 <= k < found(candidates, registered).len() ==> exists|j: int|
                0 <= j < candidates.len() && (#[trigger] candidates[j]).kind == (#[trigger] found(
                    candidates,
                    registered,
                )[k]).kind && candidates[j].element@ == found(candidates, registered)[k].element
                    && registered.contains(candidates[j].element@),
    decreases candidates.len(),
{
    if candidates.len() > 0 {
        let front = candidates.drop_last();
        let before = found(front, registered);
        let all = found(candidates, registered);
        listed_come_from_candidates(front, registered);
        assert forall|k: int| 0 <= k < all.len() implies exists|j: int|
            0 <= j < candidates.len() && (#[trigger] candidates[j]).kind == (
            #[trigger] all[k]).kind && candidates[j].element@ == all[k].element
                && registered.contains(candidates[j].element@) by {
            if k < before.len() {
                let j = choose|j: int|
                    0 <= j < front.len() && (#[trigger] front[j]).kind == before[k].kind
                        && front[j].element@ == before[k].element && registered.contains(
                        front[j].element@,
                    );
                assert(candidates[j].kind == all[k].kind);
            } else {
                assert(candidates[candidates.len() - 1].kind == all[k].kind);
            }
        }
    }
}

/// Better encoders are listed before others.
pub proof fn the_best_encoder_is_listed_first(
    candidates: Seq<EncoderSpec>,
    registered: Seq<Seq<char>>,
    i: int,
)
    requires
        0 <= i < candidates.len(),
        registered.contains(candidates[i].element@),
        forall|j: int| 0 <= j < i ==> !registered.contains((#[trigger] candidates[j]).element@),
    ensures
        found(candidates, registered).len() > 0,
        found(candidates, registered)[0].kind == candidates[i].kind,
        found(candidates, registered)[0].element == candidates[i].element@,
    decreases candidates.len(),
{
    let front = candidates.drop_last();
    if i < front.len() {
        the_best_encoder_is_listed_first(front, registered, i);
    } else {
        listed_come_from_candidates(front, registered);
        let before = found(front, registered);
        if before.len() > 0 {
            let k: int = 0;
            assert(before[k].kind == before[k].kind);
            let j = choose|j: int|
                0 <= j < front.len() && (#[trigger] front[j]).kind == before[k].kind
                    && front[j].element@ == before[k].element && registered.contains(
                    front[j].element@,
                );
            assert(candidates[j] == front[j]);
        }
    }
}

/// A candidate is found by its element, the first one where several have it.
pub proof fn a_candidate_is_found_by_its_element(candidates: Seq<EncoderSpec>, i: int)
    requires
        0 <= i < candidates.len(),
        forall|k: int|
            0 <= k < i ==> (#[trigger] candidates[k]).element@ != candidates[i].element@,
    ensures
        spec_of(candidates, candidates[i].element@) == Some(candidates[i]),
    decreases candidates.len(),
{
    if i > 0 {
        let rest = candidates.drop_first();
        assert(forall|k: int| 0 <= k < rest.len() ==> rest[k] == candidates[k + 1]);
        assert(candidates[0].element@ != candidates[i].element@);
        a_candidate_is_found_by_its_element(rest, i - 1);
    }
}

/// No encoder makes frames that depend on later ones, except for one that has no
/// such setting.
pub proof fn no_profile_looks_ahead(kind: EncoderKind, element: Seq<char>, tuning: EncoderTuning)
    requires
        element != "openh264enc"@,
    ensures
        ({
            let profile = profile_of(kind, element, tuning);
            exists|i: int|
                0 <= i < profile.len() && (#[trigger] profile[i] == number("bframes", 0)
                    || profile[i] == number("b-frames", 0) || profile[i] == number(
                    "max-b-frames",
                    0,
                ))
        }),
{
    let profile = profile_of(kind, element, tuning);
    match kind {
        EncoderKind::Nvenc => assert(profile[3] == number("bframes", 0)),
        EncoderKind::QuickSync => assert(profile[4] == number("bframes", 0)),
        EncoderKind::Amf => assert(profile[3] == number("max-b-frames", 0)),
        EncoderKind::Vaapi => assert(profile[3] == number("b-frames", 0)),
        EncoderKind::MediaFoundation => assert(profile[3] == number("bframes", 0)),
        EncoderKind::Software => assert(profile[2] == number("bframes", 0)),
    }
}

/// What a failure is described by follows the last colon; what is blank behind it
/// is passed over.
pub proof fn the_last_part_describes_a_failure(front: Seq<char>, part: Seq<char>)
    requires
        !part.contains(':'),
    ensures
        crate::text::trimmed(part).len() > 0 ==> debug_detail(front.push(':') + part)
            == crate::text::trimmed(part),
        crate::text::trimmed(part).len() == 0 ==> debug_detail(front.push(':') + part)
            == debug_detail(front),
        debug_detail(part) == crate::text::trimmed(part),
{
    let s = front.push(':') + part;
    crate::text::nothing_after_last(s, ':');
    crate::text::nothing_after_last(part, ':');
    let i = crate::text::last_index(s, ':');
    assert(s[front.len() as int] == ':');
    assert(i == front.len()) by {
        if i > front.len() {
            assert(part[i - front.len() - 1] == ':');
        }
    }
    assert(s.skip(i + 1) =~= part);
    assert(s.take(i) =~= front);
}

/// Every encoder is told the bitrate and the distance of key frames that were
/// chosen: in bits for OpenH264, in thousands of bits for the others.
pub proof fn a_profile_follows_the_tuning(
    kind: EncoderKind,
    element: Seq<char>,
    tuning: EncoderTuning,
)
    ensures
        ({
            let profile = profile_of(kind, element, tuning);
            let in_bits = kind == EncoderKind::Software && element == "openh264enc"@;
            &&& profile[0] == number(
                "bitrate",
                if in_bits {
                    tuning.bitrate_kbps * 1000
                } else {
                    tuning.bitrate_kbps as int
                },
            )
            &&& profile.contains(number("gop-size", tuning.keyframe_interval as int))
                || profile.contains(number("key-int-max", tuning.keyframe_interval as int))
            &&& profile.contains(nick("rc-mode", "cbr")) || profile.contains(
                nick("rate-control", "cbr"),
            ) || profile.contains(nick("pass", "cbr")) || in_bits && profile.contains(
                nick("rate-control", "bitrate"),
            )
        }),
{
    let profile = profile_of(kind, element, tuning);
    let gop = tuning.keyframe_interval as int;
    match kind {
        EncoderKind::Nvenc => {
            assert(profile[2] == number("gop-size", gop));
            assert(profile[6] == nick("rc-mode", "cbr"));
        },
        EncoderKind::QuickSync => {
            assert(profile[2] == number("gop-size", gop));
            assert(profile[5] == nick("rate-control", "cbr"));
        },
        EncoderKind::Amf => {
            assert(profile[2] == number("gop-size", gop));
            assert(profile[4] == nick("rate-control", "cbr"));
        },
        EncoderKind::Vaapi => {
            assert(profile[1] == number("key-int-max", gop));
            assert(profile[5] == nick("rate-control", "cbr"));
        },
        EncoderKind::MediaFoundation => {
            assert(profile[2] == number("gop-size", gop));
            assert(profile[4] == nick("rc-mode", "cbr"));
        },
        EncoderKind::Software => if element == "openh264enc"@ {
            assert(profile[2] == number("gop-size", gop));
            assert(profile[3] == nick("rate-control", "bitrate"));
        } else {
            assert(profile[1] == number("key-int-max", gop));
            assert(profile[5] == nick("pass", "cbr"));
        },
    }
}

} // verus!
