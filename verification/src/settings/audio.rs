//! The audio sources on the settings page.
use vstd::prelude::*;

use super::UNIT_VOLUME;
use crate::config::{kind_name, AudioDeviceInfo, AudioDeviceKind, AudioSourceConfig};
use crate::text::{same, to_lowercase, trim};

verus! {

/// An audio source row of the settings page.
#[derive(Debug)]
pub struct AudioSourceRow {
    pub id: String,
    pub kind: String,
    pub name: String,
    pub enabled: bool,
    /// The bit pattern of the level.
    pub volume: u32,
    pub muted: bool,
    pub connected: bool,
}

/// What an [`AudioSourceRow`] says.
pub struct SourceRowView {
    pub id: Seq<char>,
    pub kind: Seq<char>,
    pub name: Seq<char>,
    pub enabled: bool,
    pub volume: u32,
    pub muted: bool,
    pub connected: bool,
}

impl Clone for AudioSourceRow {
    fn clone(&self) -> (r: Self)
        ensures
            r == *self,
    {
        AudioSourceRow {
            id: self.id.clone(),
            kind: self.kind.clone(),
            name: self.name.clone(),
            enabled: self.enabled,
            volume: self.volume,
            muted: self.muted,
            connected: self.connected,
        }
    }
}

impl View for AudioSourceRow {
    type V = SourceRowView;

    open spec fn view(&self) -> SourceRowView {
        SourceRowView {
            id: self.id@,
            kind: self.kind@,
            name: self.name@,
            enabled: self.enabled,
            volume: self.volume,
            muted: self.muted,
            connected: self.connected,
        }
    }
}

/// What a list of rows says.
pub open spec fn row_views(rows: Seq<AudioSourceRow>) -> Seq<SourceRowView> {
    rows.map_values(|r: AudioSourceRow| r@)
}

/// Whether a row is that of an application.
pub open spec fn is_app_row(row: SourceRowView, id: Seq<char>) -> bool {
    row.kind == "app"@ && row.id == id
}

/// The text without `.exe` at its end, however often it stands there, and then
/// without `.EXE`.
pub open spec fn without_exe(s: Seq<char>) -> Seq<char> {
    without_suffix(without_suffix(s, ".exe"@), ".EXE"@)
}

/// The text without a suffix at its end, however often it stands there.
pub open spec fn without_suffix(s: Seq<char>, suffix: Seq<char>) -> Seq<char>
    decreases s.len(),
{
    if suffix.len() > 0 && crate::text::stands_at(s, suffix, s.len() - suffix.len()) {
        without_suffix(s.take(s.len() - suffix.len()), suffix)
    } else {
        s
    }
}

fn trim_suffix(s: &str, suffix: &str) -> (r: String)
    requires
        suffix@.len() > 0,
    ensures
        r@ == without_suffix(s@, suffix@),
{
    let chars = crate::text::chars_of(s);
    let tail = crate::text::chars_of(suffix);
    let n: usize = tail.len();
    let mut end: usize = chars.len();
    assert(chars@.take(end as int) =~= s@);
    while end >= n && crate::text::is_at(chars.as_slice(), tail.as_slice(), end - n)
        invariant
            n == tail.len() > 0,
            tail@ == suffix@,
            chars@ == s@,
            end <= chars.len(),
            without_suffix(s@, suffix@) == without_suffix(s@.take(end as int), suffix@),
        decreases end,
    {
        let ghost t = s@.take(end as int);
        assert(t.subrange(end - n, end as int) =~= s@.subrange(end - n, end as int));
        assert(t.take(end - n) =~= s@.take(end - n));
        end = end - n;
    }
    proof {
        let t = s@.take(end as int);
        if end >= n {
            assert(t.subrange(end - n, end as int) =~= s@.subrange(end - n, end as int));
        }
    }
    let r = crate::text::slice_of(chars.as_slice(), 0, end);
    assert(r@ =~= s@.take(end as int));
    r
}

/// The row of a new application audio source.
pub open spec fn app_row(exe: Seq<char>) -> SourceRowView {
    SourceRowView {
        id: crate::text::lowercase(exe),
        kind: "app"@,
        name: without_exe(exe),
        enabled: true,
        volume: UNIT_VOLUME,
        muted: false,
        connected: true,
    }
}

/// Adds an application audio source row for `exe` unless one exists.
pub fn add_app_source(rows: &mut Vec<AudioSourceRow>, exe: &str)
    ensures
        ({
            let before = row_views(old(rows)@);
            let name = crate::text::trimmed(exe@);
            row_views(final(rows)@) == if name.len() == 0 || exists|i: int|
                0 <= i < before.len() && is_app_row(
                    #[trigger] before[i],
                    crate::text::lowercase(name),
                ) {
                before
            } else {
                before.push(app_row(name))
            }
        }),
{
    let label = trim(exe);
    if label.as_str().unicode_len() == 0 {
        return ;
    }
    let id = to_lowercase(label.as_str());
    let ghost before = row_views(rows@);
    let mut i: usize = 0;
    while i < rows.len()
        invariant
            i <= rows.len(),
            before == row_views(rows@),
            rows@ == old(rows)@,
            label@ == crate::text::trimmed(exe@),
            id@ == crate::text::lowercase(label@),
            forall|k: int| 0 <= k < i ==> !is_app_row(#[trigger] before[k], id@),
        decreases rows.len() - i,
    {
        if same(rows[i].kind.as_str(), "app") && same(rows[i].id.as_str(), id.as_str()) {
            assert(is_app_row(before[i as int], id@));
            return ;
        }
        i = i + 1;
    }
    proof {
        reveal_strlit(".exe");
        reveal_strlit(".EXE");
    }
    let lower = trim_suffix(label.as_str(), ".exe");
    let name = trim_suffix(lower.as_str(), ".EXE");
    let row = AudioSourceRow {
        id,
        kind: "app".to_owned(),
        name,
        enabled: true,
        volume: UNIT_VOLUME,
        muted: false,
        connected: true,
    };
    rows.push(row);
    assert(row_views(rows@) =~= before.push(row@));
}

/// Rows other than that of an application.
pub open spec fn other_row(id: Seq<char>) -> spec_fn(AudioSourceRow) -> bool {
    |r: AudioSourceRow| !is_app_row(r@, id)
}

/// The rows without that of an application audio source.
pub fn remove_audio_source(rows: &Vec<AudioSourceRow>, id: &str) -> (r: Vec<AudioSourceRow>)
    ensures
        r@ == rows@.filter(other_row(id@)),
{
    let mut kept: Vec<AudioSourceRow> = Vec::new();
    let mut i: usize = 0;
    proof {
        crate::lists::filter_take_all(rows@, other_row(id@));
    }
    while i < rows.len()
        invariant
            i <= rows.len(),
            kept@ == rows@.take(i as int).filter(other_row(id@)),
        decreases rows.len() - i,
    {
        proof {
            crate::lists::filter_take_succ(rows@, other_row(id@), i as int);
        }
        if !(same(rows[i].kind.as_str(), "app") && same(rows[i].id.as_str(), id)) {
            kept.push(rows[i].clone());
        }
        i = i + 1;
    }
    proof {
        crate::lists::filter_take_all(rows@, other_row(id@));
    }
    kept
}

/// Whether a configured source is that of a device.
pub open spec fn is_source_of(s: AudioSourceConfig, id: Seq<char>, kind: AudioDeviceKind) -> bool {
    s.id@ == id && s.kind == kind
}

/// The first configured source of a device.
pub open spec fn configured_source(
    sources: Seq<AudioSourceConfig>,
    id: Seq<char>,
    kind: AudioDeviceKind,
) -> Option<AudioSourceConfig>
    decreases sources.len(),
{
    if sources.len() == 0 {
        None
    } else if is_source_of(sources[0], id, kind) {
        Some(sources[0])
    } else {
        configured_source(sources.drop_first(), id, kind)
    }
}

/// Whether a source has its device.
pub open spec fn is_connected(devices: Seq<AudioDeviceInfo>, s: AudioSourceConfig) -> bool {
    exists|i: int|
        0 <= i < devices.len() && (#[trigger] devices[i]).id@ == s.id@ && devices[i].kind == s.kind
}

/// Sources whose device is not connected right now.
pub open spec fn is_unconnected(devices: Seq<AudioDeviceInfo>) -> spec_fn(
    AudioSourceConfig,
) -> bool {
    |s: AudioSourceConfig| !is_connected(devices, s)
}

/// The row of a connected device.
pub open spec fn device_row(sources: Seq<AudioSourceConfig>) -> spec_fn(
    AudioDeviceInfo,
) -> SourceRowView {
    |d: AudioDeviceInfo|
        {
            let configured = configured_source(sources, d.id@, d.kind);
            SourceRowView {
                id: d.id@,
                kind: crate::config::kind_text(d.kind),
                name: d.name@,
                enabled: configured is Some && configured->0.enabled,
                volume: if configured is Some {
                    configured->0.volume
                } else {
                    UNIT_VOLUME
                },
                muted: configured is Some && configured->0.muted,
                connected: true,
            }
        }
}

/// The row of a configured source without its device. An application counts
/// as connected.
pub open spec fn source_row() -> spec_fn(AudioSourceConfig) -> SourceRowView {
    |s: AudioSourceConfig|
        SourceRowView {
            id: s.id@,
            kind: crate::config::kind_text(s.kind),
            name: s.name@,
            enabled: s.enabled,
            volume: s.volume,
            muted: s.muted,
            connected: s.kind == AudioDeviceKind::Application,
        }
}

/// The audio rows of the page.
pub open spec fn rows_of(
    sources: Seq<AudioSourceConfig>,
    devices: Seq<AudioDeviceInfo>,
) -> Seq<SourceRowView> {
    devices.map_values(device_row(sources)) + sources.filter(is_unconnected(devices)).map_values(
        source_row(),
    )
}

fn find_source<'a>(
    sources: &'a Vec<AudioSourceConfig>,
    id: &str,
    kind: AudioDeviceKind,
) -> (r: Option<&'a AudioSourceConfig>)
    ensures
        match r {
            Some(s) => configured_source(sources@, id@, kind) == Some(*s),
            None => configured_source(sources@, id@, kind) is None,
        },
{
    let mut i: usize = 0;
    assert(sources@.skip(0) =~= sources@);
    while i < sources.len()
        invariant
            i <= sources.len(),
            configured_source(sources@, id@, kind) == configured_source(
                sources@.skip(i as int),
                id@,
                kind,
            ),
        decreases sources.len() - i,
    {
        assert(sources@.skip(i as int).drop_first() =~= sources@.skip(i + 1));
        if same(sources[i].id.as_str(), id) && sources[i].kind == kind {
            return Some(&sources[i]);
        }
        i = i + 1;
    }
    None
}

fn has_device(devices: &Vec<AudioDeviceInfo>, s: &AudioSourceConfig) -> (r: bool)
    ensures
        r == is_connected(devices@, *s),
{
    let mut i: usize = 0;
    while i < devices.len()
        invariant
            i <= devices.len(),
            forall|k: int|
                0 <= k < i ==> !((#[trigger] devices@[k]).id@ == s.id@ && devices@[k].kind
                    == s.kind),
        decreases devices.len() - i,
    {
        if same(devices[i].id.as_str(), s.id.as_str()) && devices[i].kind == s.kind {
            assert(devices@[i as int].id@ == s.id@);
            return true;
        }
        i = i + 1;
    }
    false
}

/// Builds the audio rows: every connected device, plus configured devices
/// that are not connected right now so their settings are not lost.
pub fn audio_rows(sources: &Vec<AudioSourceConfig>, devices: &Vec<AudioDeviceInfo>) -> (r: Vec<
    AudioSourceRow,
>)
    ensures
        row_views(r@) == rows_of(sources@, devices@),
{
    let mut rows: Vec<AudioSourceRow> = Vec::new();
    let mut i: usize = 0;
    let ghost first = devices@.map_values(device_row(sources@));
    assert(row_views(rows@) =~= first.take(0));
    while i < devices.len()
        invariant
            i <= devices.len(),
            first == devices@.map_values(device_row(sources@)),
            row_views(rows@) == first.take(i as int),
        decreases devices.len() - i,
    {
        let device = &devices[i];
        let (enabled, volume, muted): (bool, u32, bool) = match find_source(
            sources,
            device.id.as_str(),
            device.kind,
        ) {
            Some(s) => (s.enabled, s.volume, s.muted),
            None => (false, UNIT_VOLUME, false),
        };
        let ghost before = row_views(rows@);
        let row = AudioSourceRow {
            id: device.id.clone(),
            kind: kind_name(device.kind).to_owned(),
            name: device.name.clone(),
            enabled,
            volume,
            muted,
            connected: true,
        };
        assert(row@ == first[i as int]);
        rows.push(row);
        assert(row_views(rows@) =~= before.push(row@));
        i = i + 1;
        assert(first.take(i as int) =~= first.take(i - 1).push(first[i - 1]));
    }
    assert(first.take(i as int) =~= first);
    let ghost keep = is_unconnected(devices@);
    let mut k: usize = 0;
    proof {
        crate::lists::filter_take_all(sources@, keep);
    }
    assert(row_views(rows@) =~= first + sources@.take(0).filter(keep).map_values(source_row()));
    while k < sources.len()
        invariant
            k <= sources.len(),
            keep == is_unconnected(devices@),
            row_views(rows@) == first + sources@.take(k as int).filter(keep).map_values(
                source_row(),
            ),
        decreases sources.len() - k,
    {
        proof {
            crate::lists::filter_take_succ(sources@, keep, k as int);
        }
        let source = &sources[k];
        if !has_device(devices, source) {
            let ghost before = row_views(rows@);
            let ghost kept = sources@.take(k as int).filter(keep);
            let row = AudioSourceRow {
                id: source.id.clone(),
                kind: kind_name(source.kind).to_owned(),
                name: source.name.clone(),
                enabled: source.enabled,
                volume: source.volume,
                muted: source.muted,
                connected: source.kind == AudioDeviceKind::Application,
            };
            assert(row@ == source_row()(*source));
            rows.push(row);
            assert(row_views(rows@) =~= before.push(row@));
            assert(kept.push(*source).map_values(source_row()) =~= kept.map_values(
                source_row(),
            ).push(row@));
            assert(row_views(rows@) =~= first + kept.push(*source).map_values(source_row()));
        }
        k = k + 1;
    }
    proof {
        crate::lists::filter_take_all(sources@, keep);
    }
    rows
}

/// The kind of audio source that a row names.
pub open spec fn kind_of(name: Seq<char>) -> AudioDeviceKind {
    if name == "input"@ {
        AudioDeviceKind::Input
    } else if name == "app"@ {
        AudioDeviceKind::Application
    } else {
        AudioDeviceKind::Output
    }
}

/// The kind of audio source that a row names.
pub fn kind_from_name(name: &str) -> (r: AudioDeviceKind)
    ensures
        r == kind_of(name@),
{
    if same(name, "input") {
        AudioDeviceKind::Input
    } else if same(name, "app") {
        AudioDeviceKind::Application
    } else {
        AudioDeviceKind::Output
    }
}

/// What an audio source in the settings says.
pub struct SourceView {
    pub id: Seq<char>,
    pub name: Seq<char>,
    pub kind: AudioDeviceKind,
    pub enabled: bool,
    pub volume: u32,
    pub muted: bool,
}

/// What an audio source in the settings says.
pub open spec fn source_view(s: AudioSourceConfig) -> SourceView {
    SourceView {
        id: s.id@,
        name: s.name@,
        kind: s.kind,
        enabled: s.enabled,
        volume: s.volume,
        muted: s.muted,
    }
}

/// What a list of audio sources says.
pub open spec fn source_views(sources: Seq<AudioSourceConfig>) -> Seq<SourceView> {
    sources.map_values(|s: AudioSourceConfig| source_view(s))
}

/// Rows that belong into the settings: what is on, what is not connected, and
/// applications.
pub open spec fn is_worth_keeping() -> spec_fn(SourceRowView) -> bool {
    |r: SourceRowView| r.enabled || !r.connected || r.kind == "app"@
}

/// The audio source that a row means.
pub open spec fn source_of_row() -> spec_fn(SourceRowView) -> SourceView {
    |r: SourceRowView|
        SourceView {
            id: r.id,
            name: r.name,
            kind: kind_of(r.kind),
            enabled: r.enabled,
            volume: r.volume,
            muted: r.muted,
        }
}

/// The audio sources that the rows mean.
pub open spec fn sources_of(rows: Seq<SourceRowView>) -> Seq<SourceView> {
    rows.filter(is_worth_keeping()).map_values(source_of_row())
}

/// The audio sources that the rows mean.
pub fn collect_audio_sources(rows: &Vec<AudioSourceRow>) -> (r: Vec<AudioSourceConfig>)
    ensures
        source_views(r@) == sources_of(row_views(rows@)),
{
    let ghost all = row_views(rows@);
    let ghost keep = is_worth_keeping();
    let mut sources: Vec<AudioSourceConfig> = Vec::new();
    let mut i: usize = 0;
    proof {
        crate::lists::filter_take_all(all, keep);
    }
    assert(source_views(sources@) =~= all.take(0).filter(keep).map_values(source_of_row()));
    while i < rows.len()
        invariant
            i <= rows.len(),
            all == row_views(rows@),
            keep == is_worth_keeping(),
            source_views(sources@) == all.take(i as int).filter(keep).map_values(source_of_row()),
        decreases rows.len() - i,
    {
        proof {
            crate::lists::filter_take_succ(all, keep, i as int);
        }
        let row = &rows[i];
        if row.enabled || !row.connected || same(row.kind.as_str(), "app") {
            let ghost before = source_views(sources@);
            let ghost kept = all.take(i as int).filter(keep);
            let source = AudioSourceConfig {
                id: row.id.clone(),
                name: row.name.clone(),
                kind: kind_from_name(row.kind.as_str()),
                enabled: row.enabled,
                volume: row.volume,
                muted: row.muted,
            };
            assert(source_view(source) == source_of_row()(all[i as int]));
            sources.push(source);
            assert(source_views(sources@) =~= before.push(source_view(source)));
            assert(kept.push(all[i as int]).map_values(source_of_row()) =~= kept.map_values(
                source_of_row(),
            ).push(source_of_row()(all[i as int])));
        }
        i = i + 1;
    }
    proof {
        crate::lists::filter_take_all(all, keep);
    }
    sources
}

/// A kind of audio source is found again by its name.
pub proof fn kinds_are_found_by_name(kind: AudioDeviceKind)
    ensures
        kind_of(crate::config::kind_text(kind)) == kind,
{
    reveal_strlit("input");
    reveal_strlit("app");
    reveal_strlit("output");
    assert("input"@.len() == 5 && "app"@.len() == 3 && "output"@.len() == 6);
}

/// The settings of a source whose device is not connected are not lost: what
/// the page shows still means that source.
pub proof fn an_unconnected_source_is_kept(
    sources: Seq<AudioSourceConfig>,
    devices: Seq<AudioDeviceInfo>,
    i: int,
)
    requires
        0 <= i < sources.len(),
        !is_connected(devices, sources[i]),
    ensures
        sources_of(rows_of(sources, devices)).contains(source_view(sources[i])),
{
    let s = sources[i];
    let keep = is_unconnected(devices);
    let rows = rows_of(sources, devices);
    let row = source_row()(s);
    kinds_are_found_by_name(s.kind);
    sources.lemma_filter_contains(keep, i);
    let unconnected = sources.filter(keep);
    let k = choose|k: int| 0 <= k < unconnected.len() && unconnected[k] == s;
    assert(unconnected.map_values(source_row())[k] == row);
    let at = devices.len() + k;
    assert(rows[at] == row);
    rows.lemma_filter_contains(is_worth_keeping(), at);
    let kept = rows.filter(is_worth_keeping());
    let n = choose|n: int| 0 <= n < kept.len() && kept[n] == row;
    assert(sources_of(rows)[n] == source_of_row()(row));
}

/// A connected device that is on keeps its settings.
pub proof fn an_enabled_device_is_kept(
    sources: Seq<AudioSourceConfig>,
    devices: Seq<AudioDeviceInfo>,
    d: int,
    s: AudioSourceConfig,
)
    requires
        0 <= d < devices.len(),
        configured_source(sources, devices[d].id@, devices[d].kind) == Some(s),
        s.enabled,
    ensures
        sources_of(rows_of(sources, devices)).contains(
            SourceView { name: devices[d].name@, ..source_view(s) },
        ),
{
    let rows = rows_of(sources, devices);
    let row = device_row(sources)(devices[d]);
    configured_source_matches(sources, devices[d].id@, devices[d].kind);
    kinds_are_found_by_name(s.kind);
    assert(rows[d] == row);
    rows.lemma_filter_contains(is_worth_keeping(), d);
    let kept = rows.filter(is_worth_keeping());
    let n = choose|n: int| 0 <= n < kept.len() && kept[n] == row;
    assert(sources_of(rows)[n] == source_of_row()(row));
}

proof fn configured_source_matches(
    sources: Seq<AudioSourceConfig>,
    id: Seq<char>,
    kind: AudioDeviceKind,
)
    ensures
        configured_source(sources, id, kind) matches Some(s) ==> is_source_of(s, id, kind),
    decreases sources.len(),
{
    if sources.len() > 0 && !is_source_of(sources[0], id, kind) {
        configured_source_matches(sources.drop_first(), id, kind);
    }
}

/// Whether a row is that of a source.
pub open spec fn is_row_of(row: SourceRowView, id: Seq<char>, kind: Seq<char>) -> bool {
    row.id == id && row.kind == kind
}

/// The first row of a source among those shown.
pub open spec fn shown_row(
    shown: Seq<SourceRowView>,
    id: Seq<char>,
    kind: Seq<char>,
) -> Option<SourceRowView>
    decreases shown.len(),
{
    if shown.len() == 0 {
        None
    } else if is_row_of(shown[0], id, kind) {
        Some(shown[0])
    } else {
        shown_row(shown.drop_first(), id, kind)
    }
}

/// A row as the user left it: what can be edited is as on the shown row of the
/// same source, if there is one.
pub open spec fn as_edited(shown: Seq<SourceRowView>) -> spec_fn(SourceRowView) -> SourceRowView {
    |row: SourceRowView|
        match shown_row(shown, row.id, row.kind) {
            Some(edited) => SourceRowView {
                enabled: edited.enabled,
                volume: edited.volume,
                muted: edited.muted,
                ..row
            },
            None => row,
        }
}

fn find_row<'a>(shown: &'a Vec<AudioSourceRow>, id: &str, kind: &str) -> (r: Option<
    &'a AudioSourceRow,
>)
    ensures
        match r {
            Some(row) => shown_row(row_views(shown@), id@, kind@) == Some(row@),
            None => shown_row(row_views(shown@), id@, kind@) is None,
        },
{
    let ghost all = row_views(shown@);
    let mut i: usize = 0;
    assert(all.skip(0) =~= all);
    while i < shown.len()
        invariant
            i <= shown.len(),
            all == row_views(shown@),
            shown_row(all, id@, kind@) == shown_row(all.skip(i as int), id@, kind@),
        decreases shown.len() - i,
    {
        assert(all.skip(i as int).drop_first() =~= all.skip(i + 1));
        assert(all.skip(i as int)[0] == shown@[i as int]@);
        if same(shown[i].id.as_str(), id) && same(shown[i].kind.as_str(), kind) {
            return Some(&shown[i]);
        }
        i = i + 1;
    }
    None
}

/// The rows with the edits of those that are shown.
pub fn keep_edits(shown: &Vec<AudioSourceRow>, rows: Vec<AudioSourceRow>) -> (r: Vec<
    AudioSourceRow,
>)
    ensures
        row_views(r@) == row_views(rows@).map_values(as_edited(row_views(shown@))),
{
    let ghost wanted = row_views(rows@).map_values(as_edited(row_views(shown@)));
    let mut kept: Vec<AudioSourceRow> = Vec::new();
    let mut i: usize = 0;
    assert(row_views(kept@) =~= wanted.take(0));
    while i < rows.len()
        invariant
            i <= rows.len(),
            wanted == row_views(rows@).map_values(as_edited(row_views(shown@))),
            row_views(kept@) == wanted.take(i as int),
        decreases rows.len() - i,
    {
        let mut row = rows[i].clone();
        if let Some(edited) = find_row(shown, rows[i].id.as_str(), rows[i].kind.as_str()) {
            row.enabled = edited.enabled;
            row.volume = edited.volume;
            row.muted = edited.muted;
        }
        assert(row@ == wanted[i as int]);
        let ghost before = row_views(kept@);
        kept.push(row);
        assert(row_views(kept@) =~= before.push(row@));
        i = i + 1;
        assert(wanted.take(i as int) =~= wanted.take(i - 1).push(wanted[i - 1]));
    }
    assert(wanted.take(i as int) =~= wanted);
    kept
}

/// Edits of a shown row are not lost when the rows are built anew, as long as
/// its source still has a row.
pub proof fn edits_are_kept(
    shown: Seq<SourceRowView>,
    sources: Seq<AudioSourceConfig>,
    devices: Seq<AudioDeviceInfo>,
    i: int,
    j: int,
)
    requires
        0 <= i < shown.len(),
        0 <= j < rows_of(sources, devices).len(),
        is_row_of(rows_of(sources, devices)[j], shown[i].id, shown[i].kind),
        forall|k: int| 0 <= k < i ==> !is_row_of(#[trigger] shown[k], shown[i].id, shown[i].kind),
    ensures
        ({
            let row = rows_of(sources, devices).map_values(as_edited(shown))[j];
            &&& row.enabled == shown[i].enabled
            &&& row.volume == shown[i].volume
            &&& row.muted == shown[i].muted
        }),
{
    shown_row_is_first(shown, i);
}

proof fn shown_row_is_first(shown: Seq<SourceRowView>, i: int)
    requires
        0 <= i < shown.len(),
        forall|k: int| 0 <= k < i ==> !is_row_of(#[trigger] shown[k], shown[i].id, shown[i].kind),
    ensures
        shown_row(shown, shown[i].id, shown[i].kind) == Some(shown[i]),
    decreases i,
{
    if i > 0 {
        let rest = shown.drop_first();
        assert(!is_row_of(shown[0], shown[i].id, shown[i].kind));
        assert forall|k: int| 0 <= k < i - 1 implies !is_row_of(
            #[trigger] rest[k],
            shown[i].id,
            shown[i].kind,
        ) by {
            assert(rest[k] == shown[k + 1]);
        }
        assert(rest[i - 1] == shown[i]);
        shown_row_is_first(rest, i - 1);
    }
}

/// The audio rows after the devices were listed again, seeded from the rows
/// currently shown, so a device refresh does not throw away unsaved edits.
pub fn refresh_audio_sources(rows: &Vec<AudioSourceRow>, devices: &Vec<AudioDeviceInfo>) -> (r: Vec<
    AudioSourceRow,
>)
    ensures
        exists|edited: Seq<AudioSourceConfig>|
            source_views(edited) == sources_of(row_views(rows@)) && row_views(r@)
                == (#[trigger] rows_of(edited, devices@)).map_values(as_edited(row_views(rows@))),
{
    let edited = collect_audio_sources(rows);
    let listed = audio_rows(&edited, devices);
    let r = keep_edits(rows, listed);
    assert(row_views(r@) == rows_of(edited@, devices@).map_values(as_edited(row_views(rows@))));
    r
}

/// An application is added once, under its name in small letters, switched on and
/// at full volume; removing it takes its row and no other.
pub proof fn an_application_row_is_found_by_its_id(row: AudioSourceRow, id: Seq<char>)
    ensures
        app_row(id).enabled && !app_row(id).muted && app_row(id).connected,
        app_row(id).volume == UNIT_VOLUME,
        app_row(id).kind == "app"@ && app_row(id).id == crate::text::lowercase(id),
        other_row(id)(row) <==> row@.kind != "app"@ || row@.id != id,
{
}

/// An application is named without the ending of its executable.
pub proof fn an_application_is_named_without_its_ending(name: Seq<char>, suffix: Seq<char>)
    requires
        suffix.len() > 0,
    ensures
        without_suffix(name + suffix, suffix) == without_suffix(name, suffix),
        !suffix.is_suffix_of(name) ==> without_suffix(name, suffix) == name,
{
    let whole = name + suffix;
    assert(whole.subrange(name.len() as int, whole.len() as int) =~= suffix);
    assert(crate::text::stands_at(whole, suffix, whole.len() - suffix.len()));
    assert(whole.take(name.len() as int) =~= name);
    if suffix.len() <= name.len() {
        assert(name.subrange(name.len() - suffix.len(), name.len() as int) =~= name.skip(
            name.len() - suffix.len(),
        ));
    }
}

} // verus!
