//! Sound through the PulseAudio protocol. What plays on an output is captured
//! from its monitor source.
use vstd::prelude::*;

use crate::config::{audio_source_key, AudioDeviceInfo, AudioDeviceKind};
use crate::engine::capture::AudioSourceSettings;
use crate::error::CaptureError;
use crate::lists::stable_sort;
use crate::text::{comes_before, ends_with, same, to_lowercase, trim_prefix};

verus! {

/// A device that the sound server lists. The id is missing where the device
/// is not one of the Pulse provider's.
#[derive(Debug)]
pub struct ListedDevice {
    pub id: Option<String>,
    /// The server says that this is the monitor of an output.
    pub is_monitor: bool,
    pub name: String,
}

/// What an audio device says.
pub struct DeviceView {
    pub id: Seq<char>,
    pub name: Seq<char>,
    pub kind: AudioDeviceKind,
}

/// What an audio device says.
pub open spec fn device_view(d: AudioDeviceInfo) -> DeviceView {
    DeviceView { id: d.id@, name: d.name@, kind: d.kind }
}

/// What a list of audio devices says.
pub open spec fn device_views(list: Seq<AudioDeviceInfo>) -> Seq<DeviceView> {
    list.map_values(|d: AudioDeviceInfo| device_view(d))
}

/// The defaults, reported so that a config can follow them.
pub open spec fn default_devices() -> Seq<DeviceView> {
    seq![
        DeviceView {
            id: crate::config::default_audio_device_id(),
            name: "Default output (follows the system)"@,
            kind: AudioDeviceKind::Output,
        },
        DeviceView {
            id: crate::config::default_audio_device_id(),
            name: "Default microphone (follows the system)"@,
            kind: AudioDeviceKind::Input,
        },
    ]
}

/// Whether a device of this id and kind is in the list.
pub open spec fn is_listed(list: Seq<DeviceView>, id: Seq<char>, kind: AudioDeviceKind) -> bool {
    exists|i: int| 0 <= i < list.len() && (#[trigger] list[i]).id == id && list[i].kind == kind
}

/// The capture endpoint of a listed device: the monitor of an output, or an
/// input.
pub open spec fn endpoint_of(device: ListedDevice) -> Option<DeviceView> {
    match device.id {
        Some(id) => if id@.len() == 0 {
            None
        } else {
            Some(
                DeviceView {
                    id: id@,
                    name: crate::text::without_prefix(device.name@, "Monitor of "@),
                    kind: if device.is_monitor || crate::text::ends_in(id@, ".monitor"@) {
                        AudioDeviceKind::Output
                    } else {
                        AudioDeviceKind::Input
                    },
                },
            )
        },
        None => None,
    }
}

/// The defaults and the endpoints of the listed devices, each once, in the
/// order in which they were found.
pub open spec fn endpoints(devices: Seq<ListedDevice>) -> Seq<DeviceView>
    decreases devices.len(),
{
    if devices.len() == 0 {
        default_devices()
    } else {
        let before = endpoints(devices.drop_last());
        match endpoint_of(devices.last()) {
            Some(d) => if is_listed(before, d.id, d.kind) {
                before
            } else {
                before.push(d)
            },
            None => before,
        }
    }
}

fn has_listed(list: &Vec<AudioDeviceInfo>, id: &str, kind: AudioDeviceKind) -> (r: bool)
    ensures
        r == is_listed(device_views(list@), id@, kind),
{
    let ghost all = device_views(list@);
    let mut i: usize = 0;
    while i < list.len()
        invariant
            i <= list.len(),
            all == device_views(list@),
            forall|k: int| 0 <= k < i ==> !((#[trigger] all[k]).id == id@ && all[k].kind == kind),
        decreases list.len() - i,
    {
        if same(list[i].id.as_str(), id) && list[i].kind == kind {
            assert(all[i as int].id == id@);
            return true;
        }
        i = i + 1;
    }
    false
}

fn find_endpoints(devices: &Vec<ListedDevice>) -> (r: Vec<AudioDeviceInfo>)
    ensures
        device_views(r@) == endpoints(devices@),
{
    let mut found: Vec<AudioDeviceInfo> = Vec::new();
    found.push(
        AudioDeviceInfo {
            id: "default".to_owned(),
            name: "Default output (follows the system)".to_owned(),
            kind: AudioDeviceKind::Output,
        },
    );
    found.push(
        AudioDeviceInfo {
            id: "default".to_owned(),
            name: "Default microphone (follows the system)".to_owned(),
            kind: AudioDeviceKind::Input,
        },
    );
    assert(device_views(found@) =~= default_devices());
    proof {
        reveal_strlit("Monitor of ");
    }
    let mut i: usize = 0;
    while i < devices.len()
        invariant
            i <= devices.len(),
            "Monitor of "@.len() > 0,
            device_views(found@) == endpoints(devices@.take(i as int)),
        decreases devices.len() - i,
    {
        assert(devices@.take(i + 1).drop_last() =~= devices@.take(i as int));
        let device = &devices[i];
        if let Some(id) = &device.id {
            let kind = if device.is_monitor || ends_with(id.as_str(), ".monitor") {
                AudioDeviceKind::Output
            } else {
                AudioDeviceKind::Input
            };
            let name = trim_prefix(device.name.as_str(), "Monitor of ");
            if id.as_str().unicode_len() > 0 && !has_listed(&found, id.as_str(), kind) {
                let ghost before = device_views(found@);
                let info = AudioDeviceInfo { id: id.clone(), name, kind };
                found.push(info);
                assert(device_views(found@) =~= before.push(device_view(info)));
            }
        }
        i = i + 1;
    }
    assert(devices@.take(i as int) =~= devices@);
    found
}

/// A number for how far down a device stands: outputs first, the defaults
/// first among them.
pub open spec fn device_rank(d: AudioDeviceInfo) -> int {
    (if d.kind == AudioDeviceKind::Output {
        0int
    } else {
        2
    }) + (if d.id@ == crate::config::default_audio_device_id() {
        0int
    } else {
        1
    })
}

/// The order of the device list: by rank, then by name without regard to case.
pub open spec fn device_before() -> spec_fn(AudioDeviceInfo, AudioDeviceInfo) -> bool {
    |a: AudioDeviceInfo, b: AudioDeviceInfo|
        if device_rank(a) != device_rank(b) {
            device_rank(a) < device_rank(b)
        } else {
            crate::text::lex_less(
                crate::text::lowercase(a.name@),
                crate::text::lowercase(b.name@),
            )
        }
}

proof fn devices_are_ordered()
    ensures
        crate::lists::is_weak_order(device_before()),
{
    let lt = device_before();
    assert forall|a: AudioDeviceInfo| !#[trigger] lt(a, a) by {
        crate::text::lex_is_strict(crate::text::lowercase(a.name@));
    }
    assert forall|a: AudioDeviceInfo, b: AudioDeviceInfo, c: AudioDeviceInfo| #[trigger]
        lt(a, b) && #[trigger] lt(b, c) implies lt(a, c) by {
        if device_rank(a) == device_rank(b) && device_rank(b) == device_rank(c) {
            crate::text::lex_is_transitive(
                crate::text::lowercase(a.name@),
                crate::text::lowercase(b.name@),
                crate::text::lowercase(c.name@),
            );
        }
    }
    assert forall|a: AudioDeviceInfo, b: AudioDeviceInfo, c: AudioDeviceInfo| #[trigger]
        lt(a, c) implies #[trigger] lt(a, b) || lt(b, c) by {
        if device_rank(a) == device_rank(b) && device_rank(b) == device_rank(c) {
            let x = crate::text::lowercase(a.name@);
            let y = crate::text::lowercase(b.name@);
            let z = crate::text::lowercase(c.name@);
            crate::text::lex_is_total(x, y);
            if crate::text::lex_less(y, x) {
                crate::text::lex_is_transitive(y, x, z);
            }
        }
    }
}

fn rank(d: &AudioDeviceInfo) -> (r: u8)
    ensures
        r == device_rank(*d),
{
    let kind: u8 = if d.kind == AudioDeviceKind::Output {
        0
    } else {
        2
    };
    let id: u8 = if same(d.id.as_str(), "default") {
        0
    } else {
        1
    };
    kind + id
}

fn stands_before(a: &AudioDeviceInfo, b: &AudioDeviceInfo) -> (r: bool)
    ensures
        r == device_before()(*a, *b),
{
    let x: u8 = rank(a);
    let y: u8 = rank(b);
    if x != y {
        x < y
    } else {
        comes_before(
            to_lowercase(a.name.as_str()).as_str(),
            to_lowercase(b.name.as_str()).as_str(),
        )
    }
}

/// Lists capture endpoints: the monitor of every output and every input.
/// The defaults are reported once, so that a config can follow them. Outputs
/// come first, the default first among them, the rest by name.
pub fn list_devices(devices: &Vec<ListedDevice>) -> (r: Vec<AudioDeviceInfo>)
    ensures
        exists|found: Seq<AudioDeviceInfo>|
            device_views(found) == endpoints(devices@) && #[trigger] crate::lists::is_stable_sort(
                device_before(),
                found,
                r@,
            ),
{
    let found = find_endpoints(devices);
    let ghost all = found@;
    proof {
        devices_are_ordered();
    }
    let r = stable_sort(found, stands_before, Ghost(device_before()));
    assert(crate::lists::is_stable_sort(device_before(), all, r@));
    r
}

/// No endpoint is listed twice.
pub proof fn endpoints_are_listed_once(devices: Seq<ListedDevice>)
    ensures
        forall|i: int, j: int|
            0 <= i < j < endpoints(devices).len() ==> (#[trigger] endpoints(devices)[i]).id != (
            #[trigger] endpoints(devices)[j]).id || endpoints(devices)[i].kind != endpoints(
                devices,
            )[j].kind,
    decreases devices.len(),
{
    if devices.len() > 0 {
        endpoints_are_listed_once(devices.drop_last());
    }
}

/// What the sound server is asked for.
#[derive(Debug)]
pub enum SourceDevice {
    /// The monitor of the current default output, which the capture follows
    /// when it changes.
    DefaultMonitor,
    /// The default input.
    Default,
    Device(String),
}

/// The device of an audio source. Application tracks are not available.
pub fn make_source(source: &AudioSourceSettings) -> (r: Result<SourceDevice, CaptureError>)
    ensures
        match r {
            Err(CaptureError::AudioSource { key, message }) => source.kind
                == AudioDeviceKind::Application && key@ == crate::config::source_key(
                source.kind,
                source.id@,
            ) && message@ == "application tracks are not available on Linux yet"@,
            Err(_) => false,
            Ok(device) => source.kind != AudioDeviceKind::Application && device == if source.id@
                != crate::config::default_audio_device_id() {
                SourceDevice::Device(source.id)
            } else if source.kind == AudioDeviceKind::Output {
                SourceDevice::DefaultMonitor
            } else {
                SourceDevice::Default
            },
        },
{
    if source.kind == AudioDeviceKind::Application {
        return Err(
            CaptureError::AudioSource {
                key: audio_source_key(source.kind, source.id.as_str()),
                message: "application tracks are not available on Linux yet".to_owned(),
            },
        );
    }
    if !same(source.id.as_str(), "default") {
        Ok(SourceDevice::Device(source.id.clone()))
    } else if source.kind == AudioDeviceKind::Output {
        Ok(SourceDevice::DefaultMonitor)
    } else {
        Ok(SourceDevice::Default)
    }
}

/// Every device with an id is listed, as an output when it is the monitor of one
/// and as an input otherwise, and the two defaults always are.
pub proof fn every_endpoint_is_listed(devices: Seq<ListedDevice>, i: int)
    ensures
        is_listed(
            endpoints(devices),
            crate::config::default_audio_device_id(),
            AudioDeviceKind::Output,
        ),
        is_listed(
            endpoints(devices),
            crate::config::default_audio_device_id(),
            AudioDeviceKind::Input,
        ),
        0 <= i < devices.len() && devices[i].id is Some && devices[i].id->0@.len() > 0
            ==> is_listed(
            endpoints(devices),
            devices[i].id->0@,
            if devices[i].is_monitor || crate::text::ends_in(devices[i].id->0@, ".monitor"@) {
                AudioDeviceKind::Output
            } else {
                AudioDeviceKind::Input
            },
        ),
    decreases devices.len(),
{
    if devices.len() == 0 {
        assert(default_devices()[0].kind == AudioDeviceKind::Output);
        assert(default_devices()[1].kind == AudioDeviceKind::Input);
    } else {
        let front = devices.drop_last();
        let before = endpoints(front);
        every_endpoint_is_listed(front, i);
        assert forall|id: Seq<char>, kind: AudioDeviceKind| is_listed(before, id, kind) implies
            #[trigger] is_listed(endpoints(devices), id, kind) by {
            let k = choose|k: int|
                0 <= k < before.len() && (#[trigger] before[k]).id == id && before[k].kind == kind;
            assert(endpoints(devices)[k] == before[k]);
        }
        if i == front.len() && devices[i].id is Some && devices[i].id->0@.len() > 0 {
            let d = endpoint_of(devices[i])->0;
            if !is_listed(before, d.id, d.kind) {
                assert(endpoints(devices)[before.len() as int] == d);
            }
        }
    }
}

/// Outputs stand before inputs, and the default before the others of its kind.
pub proof fn outputs_and_defaults_come_first(a: AudioDeviceInfo, b: AudioDeviceInfo)
    requires
        a.kind != AudioDeviceKind::Application,
        b.kind != AudioDeviceKind::Application,
    ensures
        a.kind == AudioDeviceKind::Output && b.kind == AudioDeviceKind::Input
            ==> device_before()(a, b) && !device_before()(b, a),
        a.kind == b.kind && a.id@ == crate::config::default_audio_device_id() && b.id@
            != crate::config::default_audio_device_id() ==> device_before()(a, b)
            && !device_before()(b, a),
        a.kind == b.kind && a.id@ != crate::config::default_audio_device_id() && b.id@
            != crate::config::default_audio_device_id() ==> device_before()(a, b)
            == crate::text::lex_less(
            crate::text::lowercase(a.name@),
            crate::text::lowercase(b.name@),
        ),
{
}

} // verus!
