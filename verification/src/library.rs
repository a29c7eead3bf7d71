//! The clip library service: keeps the index in step with the clip folders
//! and says which metadata and thumbnails are still to be made.
use vstd::prelude::*;

use crate::numbers::{round_wide_ratio, to_double};
use crate::paths::{same_path, within};
use crate::playback::MediaInfo;
use crate::sink::{next_part_path, FilePath};
use crate::text::{decimal, ends_with, join2, join3, list_contains, padded, same, to_ascii_lower};

pub mod cards;
pub mod service;
pub mod upkeep;

verus! {

/// The width of a thumbnail.
pub const THUMBNAIL_WIDTH: u32 = 480;

/// How long, in nanoseconds, the index may differ from its file before it is
/// written. Edits come in bursts (a save tags a file twice, a scan touches
/// many), and the index is rebuilt from the files anyway if the write never
/// happens.
pub const SAVE_DELAY: u64 = 2_000_000_000;

/// What a clip is.
#[derive(Debug, Clone, Copy, PartialEq, Eq, Structural)]
pub enum ClipKind {
    Replay,
    Recording,
    Edited,
}

impl ClipKind {
    /// The name shown to the user.
    pub open spec fn name(self) -> Seq<char> {
        match self {
            ClipKind::Replay => "Replay"@,
            ClipKind::Recording => "Recording"@,
            ClipKind::Edited => "Edited"@,
        }
    }

    /// The name shown to the user.
    pub fn label(self) -> (r: &'static str)
        ensures
            r@ == self.name(),
    {
        match self {
            ClipKind::Replay => "Replay",
            ClipKind::Recording => "Recording",
            ClipKind::Edited => "Edited",
        }
    }
}

/// A point in time: whole seconds since 1970, or before it, and the nanoseconds
/// behind them.
#[derive(Debug, Clone, Copy, PartialEq, Eq, Structural)]
pub struct Moment {
    pub seconds: i64,
    pub nanos: u32,
}

impl Moment {
    /// Whether a point in time comes after another.
    pub open spec fn is_after(self, other: Moment) -> bool {
        self.seconds > other.seconds || self.seconds == other.seconds && self.nanos > other.nanos
    }

    /// Whether a point in time comes after another.
    pub fn after(&self, other: &Moment) -> (r: bool)
        ensures
            r == self.is_after(*other),
    {
        self.seconds > other.seconds || self.seconds == other.seconds && self.nanos > other.nanos
    }
}

/// A clip in the index.
#[derive(Debug)]
pub struct ClipRecord {
    pub id: String,
    pub path: String,
    pub title: String,
    pub kind: ClipKind,
    pub game: Option<String>,
    pub created: Moment,
    pub bytes: u64,
    pub duration_ms: u64,
    pub width: u32,
    pub height: u32,
    /// The file was read, or could not be.
    pub probed: bool,
    pub thumbnail: Option<String>,
    pub audio_tracks: Vec<String>,
}

/// Writes a file size: whole megabytes, and gigabytes with one decimal from
/// 1024 megabytes on.
pub open spec fn size_text(bytes: u64) -> Seq<char> {
    let n = crate::numbers::as_double(bytes as nat);
    if n >= 0x4000_0000 {
        let tenths = crate::numbers::nearest(10 * n, 0x4000_0000);
        crate::text::dec(tenths / 10) + "."@ + crate::text::dec(tenths % 10) + " GB"@
    } else {
        crate::text::dec(crate::numbers::nearest(n, 0x10_0000)) + " MB"@
    }
}

/// Writes a file size: whole megabytes, and gigabytes with one decimal from
/// 1024 megabytes on.
pub fn format_size(bytes: u64) -> (r: String)
    ensures
        r@ == size_text(bytes),
{
    let n: u128 = to_double(bytes);
    if n >= 0x4000_0000 {
        let tenths: u128 = round_wide_ratio(10 * n, 0x4000_0000);
        assert(tenths <= 0x1_0000_0000_0000);
        let mut s = join3(decimal((tenths / 10) as u64).as_str(), ".", decimal(
            (tenths % 10) as u64,
        ).as_str());
        s.append(" GB");
        s
    } else {
        let mb: u128 = round_wide_ratio(n, 0x10_0000);
        join2(decimal(mb as u64).as_str(), " MB")
    }
}

/// Two digits of a number.
pub open spec fn two(n: nat) -> Seq<char> {
    crate::text::zero_padded(crate::text::dec(n), 2)
}

/// Writes a duration: hours only when there are any.
pub open spec fn duration_text(seconds: nat) -> Seq<char> {
    let h = seconds / 3600;
    let m = (seconds % 3600) / 60;
    let s = seconds % 60;
    if h > 0 {
        crate::text::dec(h) + ":"@ + two(m) + ":"@ + two(s)
    } else {
        crate::text::dec(m) + ":"@ + two(s)
    }
}

/// Writes a duration of whole seconds: hours only when there are any.
pub fn format_duration(seconds: u64) -> (r: String)
    ensures
        r@ == duration_text(seconds as nat),
{
    let h: u64 = seconds / 3600;
    let m: u64 = (seconds % 3600) / 60;
    let s: u64 = seconds % 60;
    if h > 0 {
        let mut text = join3(decimal(h).as_str(), ":", padded(m, 2).as_str());
        text.append(":");
        text.append(padded(s, 2).as_str());
        text
    } else {
        join3(decimal(m).as_str(), ":", padded(s, 2).as_str())
    }
}

/// Where the thumbnail of a clip is taken, in nanoseconds: a tenth into it, at
/// most five seconds, one second when its length is unknown.
pub open spec fn time_of_thumbnail(duration: int) -> int {
    if duration == 0 {
        1_000_000_000
    } else if duration / 10 < 5_000_000_000 {
        duration / 10
    } else {
        5_000_000_000
    }
}

/// Where the thumbnail of a clip is taken, in nanoseconds: a tenth into it, at
/// most five seconds, one second when its length is unknown.
pub fn thumbnail_time(duration: u64) -> (r: u64)
    ensures
        r == time_of_thumbnail(duration as int),
{
    if duration == 0 {
        1_000_000_000
    } else if duration / 10 < 5_000_000_000 {
        duration / 10
    } else {
        5_000_000_000
    }
}

/// Where the thumbnail of a job is taken, in nanoseconds, if it makes one. The
/// length is that of the file where it was read, else the one that the index
/// knows.
pub fn thumbnail_at(job: &Job, info: &Option<MediaInfo>) -> (r: Option<u64>)
    ensures
        r == if !job.thumbnail {
            None
        } else {
            Some(
                time_of_thumbnail(
                    match info {
                        Some(info) => info.duration as int,
                        None => job.duration_ms * 1_000_000,
                    },
                ) as u64,
            )
        },
{
    if !job.thumbnail {
        return None;
    }
    match info {
        Some(info) => Some(thumbnail_time(info.duration)),
        None => if job.duration_ms >= 50_000 {
            Some(5_000_000_000)
        } else {
            Some(thumbnail_time(job.duration_ms * 1_000_000))
        },
    }
}

/// Whether a file is the partial file of a recording that nobody writes any
/// more. `age` is the number of seconds since it was last written, if that is
/// known.
pub open spec fn is_abandoned_part(name: Seq<char>, age: Option<u64>) -> bool {
    crate::text::ends_in(crate::text::ascii_lower(name), ".mp4.part"@) && !(age is Some && age->0
        < 60)
}

/// The name that a partial file is recovered under: a `.mp4.part` that nobody
/// has touched for a minute is a recording cut short by a crash. Fragmented
/// output keeps it playable, so it is renamed into a clip instead of being
/// left to rot. `None` for every other file.
pub fn recover_partial_name(name: &str, age: Option<u64>) -> (r: Option<String>)
    ensures
        match r {
            Some(target) => is_abandoned_part(name@, age) && target@ == recovery_name(
                name@,
            ),
            None => !is_abandoned_part(name@, age),
        },
{
    proof {
        reveal_strlit(".mp4.part");
    }
    let recent = match age {
        Some(seconds) => seconds < 60,
        None => false,
    };
    let lower = to_ascii_lower(name);
    if !ends_with(lower.as_str(), ".mp4.part") || recent {
        return None;
    }
    let n: usize = name.unicode_len();
    let stem = name.substring_char(0, n - 9);
    assert(stem@ =~= name@.take(name@.len() - 9));
    Some(join2(stem, " (recovered).mp4"))
}

/// The name that an abandoned partial file gets before other files count.
pub open spec fn recovery_name(name: Seq<char>) -> Seq<char> {
    name.take(name.len() - 9) + " (recovered).mp4"@
}

/// The name that a partial file is recovered under, so that no file in its
/// folder is overwritten: the plain one, or the next free number behind it when
/// that is taken. `taken` lists the names in the folder. `None` for every file
/// that is not recovered.
pub fn recovered_name(name: &str, age: Option<u64>, taken: &Vec<String>) -> (r: Option<String>)
    ensures
        ({
            let names = crate::text::views(taken@);
            let plain = recovery_name(name@);
            match r {
                Some(target) => {
                    &&& is_abandoned_part(name@, age)
                    &&& !names.contains(target@)
                    &&& if names.contains(plain) {
                        crate::sink::is_next_part(names, plain, target@) && crate::sink::is_free(
                            names,
                            target@,
                        )
                    } else {
                        target@ == plain
                    }
                },
                None => !is_abandoned_part(name@, age) || names.contains(plain) && forall|m: nat|
                    2 <= m <= i32::MAX ==> !crate::sink::is_free(
                        names,
                        #[trigger] crate::sink::numbered(plain, m),
                    ),
            }
        }),
        taken.len() <= i32::MAX - 2 ==> (r is Some <==> is_abandoned_part(name@, age)),
{
    let ghost names = crate::text::views(taken@);
    let plain = match recover_partial_name(name, age) {
        Some(plain) => plain,
        None => return None,
    };
    assert(plain@ == recovery_name(name@));
    if !list_contains(taken, plain.as_str()) {
        return Some(plain);
    }
    let file = FilePath { dir: String::new(), name: plain };
    let next = next_part_path(&file, taken);
    proof {
        if taken.len() <= i32::MAX - 2 {
            crate::sink::the_next_part_is_a_new_file(names, file.name@, next.name@);
        }
    }
    if list_contains(taken, next.name.as_str()) {
        return None;
    }
    Some(next.name)
}

/// The clip folders: the root and the three subfolders, which may equal it.
#[derive(Debug)]
pub struct ClipDirs {
    pub clips: String,
    pub clips_out: String,
    pub recordings: String,
    pub edited: String,
}

impl ClipDirs {
    /// The kind a file gets from the folder it lives in.
    pub open spec fn kind(self, path: Seq<char>) -> ClipKind {
        if !crate::paths::is_same_path(self.recordings@, self.clips@) && crate::paths::is_within(
            path,
            self.recordings@,
        ) {
            ClipKind::Recording
        } else if !crate::paths::is_same_path(self.edited@, self.clips@)
            && crate::paths::is_within(path, self.edited@) {
            ClipKind::Edited
        } else {
            ClipKind::Replay
        }
    }

    /// The kind a file gets from the folder it lives in.
    pub fn kind_for(&self, path: &str) -> (r: ClipKind)
        ensures
            r == self.kind(path@),
    {
        if !same_path(self.recordings.as_str(), self.clips.as_str()) && within(
            path,
            self.recordings.as_str(),
        ) {
            ClipKind::Recording
        } else if !same_path(self.edited.as_str(), self.clips.as_str()) && within(
            path,
            self.edited.as_str(),
        ) {
            ClipKind::Edited
        } else {
            ClipKind::Replay
        }
    }

    /// Whether two sets of folders are the same.
    pub open spec fn same_as(self, other: ClipDirs) -> bool {
        &&& crate::paths::is_same_path(self.clips@, other.clips@)
        &&& crate::paths::is_same_path(self.clips_out@, other.clips_out@)
        &&& crate::paths::is_same_path(self.recordings@, other.recordings@)
        &&& crate::paths::is_same_path(self.edited@, other.edited@)
    }

    /// The folders in the order in which they are scanned, with the kind that
    /// files get there.
    pub open spec fn in_order(self) -> Seq<(String, ClipKind)> {
        seq![
            (self.clips_out, ClipKind::Replay),
            (self.recordings, ClipKind::Recording),
            (self.edited, ClipKind::Edited),
            (self.clips, ClipKind::Replay),
        ]
    }

    /// Whether two sets of folders are the same.
    pub fn same(&self, other: &ClipDirs) -> (r: bool)
        ensures
            r == self.same_as(*other),
    {
        same_path(self.clips.as_str(), other.clips.as_str()) && same_path(
            self.clips_out.as_str(),
            other.clips_out.as_str(),
        ) && same_path(self.recordings.as_str(), other.recordings.as_str()) && same_path(
            self.edited.as_str(),
            other.edited.as_str(),
        )
    }

    /// Which folders to scan, in order: a folder that doubles as an earlier
    /// one is only scanned once.
    pub fn scan_order(&self) -> (r: Vec<ScanStep>)
        ensures
            scan_views(r@) == scans(self.in_order(), 4),
    {
        let mut plan: Vec<(String, ClipKind)> = Vec::new();
        plan.push((self.clips_out.clone(), ClipKind::Replay));
        plan.push((self.recordings.clone(), ClipKind::Recording));
        plan.push((self.edited.clone(), ClipKind::Edited));
        plan.push((self.clips.clone(), ClipKind::Replay));
        assert(plan@ =~= self.in_order());
        let mut out: Vec<ScanStep> = Vec::new();
        let mut i: usize = 0;
        assert(scan_views(out@) =~= scans(plan@, 0));
        while i < 4
            invariant
                i <= 4,
                plan.len() == 4,
                plan@ == self.in_order(),
                scan_views(out@) == scans(plan@, i as int),
            decreases 4 - i,
        {
            let ghost before = scan_views(out@);
            if !was_scanned(&plan, i) {
                let others = others_of(&plan, i);
                let step = ScanStep { dir: plan[i].0.clone(), kind: plan[i].1, others };
                out.push(step);
                assert(scan_views(out@) =~= before.push(step@));
            }
            i = i + 1;
        }
        out
    }
}

/// A folder to scan for files of a kind. The other folders are left to their
/// own pass (the root holds all three); subfolders come along.
#[derive(Debug)]
pub struct ScanStep {
    pub dir: String,
    pub kind: ClipKind,
    pub others: Vec<String>,
}

/// What a [`ScanStep`] says.
#[verifier::ext_equal]
pub struct ScanView {
    pub dir: Seq<char>,
    pub kind: ClipKind,
    pub others: Seq<Seq<char>>,
}

impl View for ScanStep {
    type V = ScanView;

    open spec fn view(&self) -> ScanView {
        ScanView { dir: self.dir@, kind: self.kind, others: crate::text::views(self.others@) }
    }
}

/// What a list of steps says.
pub open spec fn scan_views(steps: Seq<ScanStep>) -> Seq<ScanView> {
    steps.map_values(|s: ScanStep| s@)
}

/// Whether an earlier folder is the same as the one at `i`.
pub open spec fn is_repeat(plan: Seq<(String, ClipKind)>, i: int) -> bool {
    exists|k: int|
        0 <= k < i && crate::paths::is_same_path((#[trigger] plan[k]).0@, plan[i].0@)
}

/// Folders other than `dir`.
pub open spec fn is_other(dir: Seq<char>) -> spec_fn((String, ClipKind)) -> bool {
    |p: (String, ClipKind)| !crate::paths::is_same_path(p.0@, dir)
}

/// The scans of the first `n` folders.
pub open spec fn scans(plan: Seq<(String, ClipKind)>, n: int) -> Seq<ScanView>
    decreases n,
{
    if n <= 0 {
        Seq::empty()
    } else {
        let before = scans(plan, n - 1);
        if is_repeat(plan, n - 1) {
            before
        } else {
            before.push(
                ScanView {
                    dir: plan[n - 1].0@,
                    kind: plan[n - 1].1,
                    others: plan.filter(is_other(plan[n - 1].0@)).map_values(
                        |p: (String, ClipKind)| p.0@,
                    ),
                },
            )
        }
    }
}

/// Every folder is scanned, and none twice, however many of them double as
/// another.
pub proof fn every_folder_is_scanned_once(plan: Seq<(String, ClipKind)>, n: int)
    requires
        0 <= n <= plan.len(),
    ensures
        forall|i: int, j: int|
            0 <= i < j < scans(plan, n).len() ==> !crate::paths::is_same_path(
                (#[trigger] scans(plan, n)[i]).dir,
                (#[trigger] scans(plan, n)[j]).dir,
            ),
        forall|k: int|
            0 <= k < n ==> exists|i: int|
                0 <= i < scans(plan, n).len() && crate::paths::is_same_path(
                    (#[trigger] scans(plan, n)[i]).dir,
                    (#[trigger] plan[k]).0@,
                ),
{
    scans_differ(plan, n);
    assert forall|k: int| 0 <= k < n implies exists|i: int|
        0 <= i < scans(plan, n).len() && crate::paths::is_same_path(
            (#[trigger] scans(plan, n)[i]).dir,
            (#[trigger] plan[k]).0@,
        ) by {
        let i = folder_is_scanned(plan, n, k);
        assert(crate::paths::is_same_path(scans(plan, n)[i].dir, plan[k].0@));
    }
}

proof fn scans_differ(plan: Seq<(String, ClipKind)>, n: int)
    requires
        0 <= n <= plan.len(),
    ensures
        forall|i: int, j: int|
            0 <= i < j < scans(plan, n).len() ==> !crate::paths::is_same_path(
                (#[trigger] scans(plan, n)[i]).dir,
                (#[trigger] scans(plan, n)[j]).dir,
            ),
    decreases n,
{
    if n > 0 {
        let before = scans(plan, n - 1);
        let after = scans(plan, n);
        scans_differ(plan, n - 1);
        scans_come_from_the_plan(plan, n - 1);
        if !is_repeat(plan, n - 1) {
            assert forall|i: int, j: int|
                0 <= i < j < after.len() implies !crate::paths::is_same_path(
                (#[trigger] after[i]).dir,
                (#[trigger] after[j]).dir,
            ) by {
                assert(after[i] == before[i]);
                if j == before.len() {
                    let k = choose|k: int|
                        0 <= k < n - 1 && (#[trigger] plan[k]).0@ == before[i].dir;
                    assert(!crate::paths::is_same_path(plan[k].0@, plan[n - 1].0@));
                } else {
                    assert(after[j] == before[j]);
                }
            }
        }
    }
}

proof fn folder_is_scanned(plan: Seq<(String, ClipKind)>, n: int, k: int) -> (i: int)
    requires
        0 <= k < n <= plan.len(),
    ensures
        0 <= i < scans(plan, n).len(),
        crate::paths::is_same_path(scans(plan, n)[i].dir, plan[k].0@),
    decreases n,
{
    let before = scans(plan, n - 1);
    if k < n - 1 {
        folder_is_scanned(plan, n - 1, k)
    } else if is_repeat(plan, k) {
        let m = choose|m: int|
            0 <= m < k && crate::paths::is_same_path((#[trigger] plan[m]).0@, plan[k].0@);
        folder_is_scanned(plan, n - 1, m)
    } else {
        before.len() as int
    }
}

proof fn scans_come_from_the_plan(plan: Seq<(String, ClipKind)>, n: int)
    requires
        0 <= n <= plan.len(),
    ensures
        forall|i: int|
            0 <= i < scans(plan, n).len() ==> exists|k: int|
                0 <= k < n && (#[trigger] plan[k]).0@ == (#[trigger] scans(plan, n)[i]).dir,
    decreases n,
{
    if n > 0 {
        scans_come_from_the_plan(plan, n - 1);
        let before = scans(plan, n - 1);
        let after = scans(plan, n);
        assert forall|i: int| 0 <= i < after.len() implies exists|k: int|
            0 <= k < n && (#[trigger] plan[k]).0@ == (#[trigger] after[i]).dir by {
            if i < before.len() {
                assert(after[i] == before[i]);
                let k = choose|k: int| 0 <= k < n - 1 && (#[trigger] plan[k]).0@ == before[i].dir;
                assert(plan[k].0@ == after[i].dir);
            } else {
                assert(plan[n - 1].0@ == after[i].dir);
            }
        }
    }
}

fn was_scanned(plan: &Vec<(String, ClipKind)>, i: usize) -> (r: bool)
    requires
        i < plan.len(),
    ensures
        r == is_repeat(plan@, i as int),
{
    let mut k: usize = 0;
    while k < i
        invariant
            k <= i < plan.len(),
            forall|j: int|
                0 <= j < k ==> !crate::paths::is_same_path(
                    (#[trigger] plan@[j]).0@,
                    plan@[i as int].0@,
                ),
        decreases i - k,
    {
        if same_path(plan[k].0.as_str(), plan[i].0.as_str()) {
            assert(crate::paths::is_same_path(plan@[k as int].0@, plan@[i as int].0@));
            return true;
        }
        k = k + 1;
    }
    false
}

fn others_of(plan: &Vec<(String, ClipKind)>, i: usize) -> (r: Vec<String>)
    requires
        i < plan.len(),
    ensures
        crate::text::views(r@) == plan@.filter(is_other(plan@[i as int].0@)).map_values(
            |p: (String, ClipKind)| p.0@,
        ),
{
    let ghost f = |p: (String, ClipKind)| p.0@;
    let ghost other = is_other(plan@[i as int].0@);
    let mut out: Vec<String> = Vec::new();
    let mut k: usize = 0;
    proof {
        crate::lists::filter_take_all(plan@, other);
    }
    assert(crate::text::views(out@) =~= plan@.take(0).filter(other).map_values(f));
    while k < plan.len()
        invariant
            i < plan.len(),
            k <= plan.len(),
            other == is_other(plan@[i as int].0@),
            f == (|p: (String, ClipKind)| p.0@),
            crate::text::views(out@) == plan@.take(k as int).filter(other).map_values(f),
        decreases plan.len() - k,
    {
        proof {
            crate::lists::filter_take_succ(plan@, other, k as int);
        }
        if !same_path(plan[k].0.as_str(), plan[i].0.as_str()) {
            let ghost before = crate::text::views(out@);
            let ghost kept = plan@.take(k as int).filter(other);
            out.push(plan[k].0.clone());
            assert(crate::text::views(out@) =~= before.push(plan@[k as int].0@));
            assert(kept.push(plan@[k as int]).map_values(f) =~= kept.map_values(f).push(
                f(plan@[k as int]),
            ));
        }
        k = k + 1;
    }
    proof {
        crate::lists::filter_take_all(plan@, other);
    }
    out
}

/// Work for the background: read a file, make its thumbnail.
#[derive(Debug)]
pub struct Job {
    pub id: String,
    pub path: String,
    pub probe: bool,
    pub thumbnail: bool,
    pub duration_ms: u64,
}

/// What the background found out about a clip. `info` is missing when the
/// file was not read or could not be.
#[derive(Debug)]
pub struct JobResult {
    pub id: String,
    pub info: Option<MediaInfo>,
    pub thumbnail: Option<String>,
    /// What the audio tracks of the file are called where the index does not
    /// know it.
    pub track_names: Vec<String>,
}

/// What an audio track is called: its name from the list, its number behind the
/// end of the list.
pub open spec fn track_name(names: Seq<Seq<char>>, i: int) -> Seq<char> {
    if i < names.len() {
        names[i]
    } else {
        crate::text::dec((i + 1) as nat)
    }
}

impl JobResult {
    /// What was found out about a clip. `names` lists what audio tracks are
    /// called; each track of the file gets a name.
    pub fn new(
        id: String,
        info: Option<MediaInfo>,
        thumbnail: Option<String>,
        names: &Vec<String>,
    ) -> (r: Self)
        ensures
            r.id == id,
            r.info == info,
            r.thumbnail == thumbnail,
            r.track_names.len() == (match info {
                Some(info) => info.audio_tracks as int,
                None => 0,
            }),
            forall|i: int|
                0 <= i < r.track_names.len() ==> (#[trigger] r.track_names@[i])@ == track_name(
                    crate::text::views(names@),
                    i,
                ),
    {
        let count: usize = match &info {
            Some(info) => info.audio_tracks,
            None => 0,
        };
        let mut track_names: Vec<String> = Vec::new();
        let mut i: usize = 0;
        while i < count
            invariant
                i <= count,
                i == track_names.len(),
                forall|k: int|
                    0 <= k < i ==> (#[trigger] track_names@[k])@ == track_name(
                        crate::text::views(names@),
                        k,
                    ),
            decreases count - i,
        {
            let name = if i < names.len() {
                names[i].clone()
            } else {
                decimal(i as u64 + 1)
            };
            track_names.push(name);
            i = i + 1;
        }
        JobResult { id, info, thumbnail, track_names }
    }
}

/// What [`LibraryService::index_written`] did.
#[derive(Debug)]
pub struct Indexed {
    /// The gallery shows something else now.
    pub changed: bool,
    pub jobs: Vec<Job>,
}

/// What [`LibraryService::poll`] applied.
#[derive(Debug)]
pub struct Polled {
    pub changed: bool,
    /// Thumbnail files written or rewritten, so cached pictures of them
    /// can be dropped.
    pub thumbnails: Vec<String>,
    /// The index is to be written.
    pub save: bool,
}

/// The index, and what is being done about it. Times are in nanoseconds.
#[derive(Debug)]
pub struct LibraryService {
    pub clips: Vec<ClipRecord>,
    pub dirs: ClipDirs,
    /// The clips that the background works on.
    pub in_flight: Vec<String>,
    /// When the index first diverged from the file, `None` when in sync.
    pub dirty_since: Option<u64>,
}

/// The place of the clip with this id, the first one if there are more.
pub open spec fn index_of_id(clips: Seq<ClipRecord>, id: Seq<char>) -> Option<int>
    decreases clips.len(),
{
    if clips.len() == 0 {
        None
    } else if clips[0].id@ == id {
        Some(0)
    } else {
        match index_of_id(clips.drop_first(), id) {
            Some(i) => Some(i + 1),
            None => None,
        }
    }
}

/// The place of the clip with this path, the first one if there are more.
pub open spec fn index_of_path(clips: Seq<ClipRecord>, path: Seq<char>) -> Option<int>
    decreases clips.len(),
{
    if clips.len() == 0 {
        None
    } else if crate::paths::is_same_path(clips[0].path@, path) {
        Some(0)
    } else {
        match index_of_path(clips.drop_first(), path) {
            Some(i) => Some(i + 1),
            None => None,
        }
    }
}

pub(crate) fn find_id(clips: &Vec<ClipRecord>, id: &str) -> (r: Option<usize>)
    ensures
        match r {
            Some(i) => index_of_id(clips@, id@) == Some(i as int) && i < clips.len()
                && clips@[i as int].id@ == id@,
            None => index_of_id(clips@, id@) is None,
        },
{
    let mut i: usize = 0;
    assert(clips@.skip(0) =~= clips@);
    while i < clips.len()
        invariant
            i <= clips.len(),
            index_of_id(clips@, id@) == match index_of_id(clips@.skip(i as int), id@) {
                Some(k) => Some(k + i),
                None => None,
            },
        decreases clips.len() - i,
    {
        assert(clips@.skip(i as int).drop_first() =~= clips@.skip(i + 1));
        if same(clips[i].id.as_str(), id) {
            return Some(i);
        }
        i = i + 1;
    }
    None
}

pub(crate) fn find_path(clips: &Vec<ClipRecord>, path: &str) -> (r: Option<usize>)
    ensures
        match r {
            Some(i) => index_of_path(clips@, path@) == Some(i as int) && i < clips.len(),
            None => index_of_path(clips@, path@) is None,
        },
{
    let mut i: usize = 0;
    assert(clips@.skip(0) =~= clips@);
    while i < clips.len()
        invariant
            i <= clips.len(),
            index_of_path(clips@, path@) == match index_of_path(clips@.skip(i as int), path@) {
                Some(k) => Some(k + i),
                None => None,
            },
        decreases clips.len() - i,
    {
        assert(clips@.skip(i as int).drop_first() =~= clips@.skip(i + 1));
        if same_path(clips[i].path.as_str(), path) {
            return Some(i);
        }
        i = i + 1;
    }
    None
}

/// The work that clips need: those that are not being worked on and exist.
pub open spec fn jobs_for(
    clips: Seq<ClipRecord>,
    in_flight: Seq<Seq<char>>,
    ids: Seq<Seq<char>>,
) -> Seq<Job>
    decreases ids.len(),
{
    if ids.len() == 0 {
        Seq::empty()
    } else {
        let before = jobs_for(clips, in_flight, ids.drop_last());
        let id = ids.last();
        match index_of_id(clips, id) {
            Some(i) => if in_flight.contains(id) {
                before
            } else {
                before.push(
                    Job {
                        id: clips[i].id,
                        path: clips[i].path,
                        probe: !clips[i].probed,
                        thumbnail: clips[i].thumbnail is None,
                        duration_ms: clips[i].duration_ms,
                    },
                )
            },
            None => before,
        }
    }
}

/// The time since when the index differs from its file, after a change.
pub open spec fn dirty_from(since: Option<u64>, now: u64) -> Option<u64> {
    match since {
        Some(t) => Some(t),
        None => Some(now),
    }
}

/// Whether the index is due to be written.
pub open spec fn is_due(since: Option<u64>, now: u64) -> bool {
    since is Some && now - since->0 >= SAVE_DELAY
}

/// The clips after the background's findings about one of them.
pub open spec fn clips_after(clips: Seq<ClipRecord>, result: JobResult) -> Seq<ClipRecord> {
    match index_of_id(clips, result.id@) {
        None => clips,
        Some(i) => {
            let c = clips[i];
            let read = match result.info {
                Some(info) => ClipRecord {
                    duration_ms: info.duration / 1_000_000,
                    width: info.width,
                    height: info.height,
                    probed: true,
                    audio_tracks: if c.audio_tracks.len() == 0 {
                        result.track_names
                    } else {
                        c.audio_tracks
                    },
                    ..c
                },
                // The file could not be read; it is not tried again.
                None => ClipRecord { probed: true, ..c },
            };
            clips.update(
                i,
                match result.thumbnail {
                    Some(t) => ClipRecord { thumbnail: Some(t), ..read },
                    None => read,
                },
            )
        },
    }
}

/// Whether the background's findings change anything.
pub open spec fn changes(clips: Seq<ClipRecord>, result: JobResult) -> bool {
    ||| result.info is Some
    ||| result.thumbnail is Some
    ||| index_of_id(clips, result.id@) matches Some(i) && !clips[i].probed
}

/// The state after all findings.
pub open spec fn all_after(clips: Seq<ClipRecord>, results: Seq<JobResult>) -> (
    Seq<ClipRecord>,
    bool,
)
    decreases results.len(),
{
    if results.len() == 0 {
        (clips, false)
    } else {
        let (before, changed) = all_after(clips, results.drop_last());
        (clips_after(before, results.last()), changed || changes(before, results.last()))
    }
}

/// The thumbnails among the findings, in order.
pub open spec fn new_thumbnails(results: Seq<JobResult>) -> Seq<Seq<char>>
    decreases results.len(),
{
    if results.len() == 0 {
        Seq::empty()
    } else {
        let before = new_thumbnails(results.drop_last());
        match results.last().thumbnail {
            Some(t) => before.push(t@),
            None => before,
        }
    }
}

/// The clips being worked on after findings came in.
pub open spec fn still_in_flight(in_flight: Set<Seq<char>>, results: Seq<JobResult>) -> Set<
    Seq<char>,
>
    decreases results.len(),
{
    if results.len() == 0 {
        in_flight
    } else {
        still_in_flight(in_flight, results.drop_last()).remove(results.last().id@)
    }
}

/// The bytes of all clips.
pub open spec fn byte_sum(clips: Seq<ClipRecord>) -> nat
    decreases clips.len(),
{
    if clips.len() == 0 {
        0
    } else {
        byte_sum(clips.drop_last()) + clips.last().bytes as nat
    }
}

/// The bytes of some of the clips are no more than those of all.
pub proof fn byte_sum_grows(clips: Seq<ClipRecord>, i: int)
    requires
        0 <= i <= clips.len(),
    ensures
        byte_sum(clips.take(i)) <= byte_sum(clips),
    decreases clips.len() - i,
{
    if i < clips.len() {
        assert(clips.take(i + 1).drop_last() =~= clips.take(i));
        byte_sum_grows(clips, i + 1);
    } else {
        assert(clips.take(i) =~= clips);
    }
}

proof fn missing_id(clips: Seq<ClipRecord>, id: Seq<char>)
    requires
        forall|k: int| 0 <= k < clips.len() ==> (#[trigger] clips[k]).id@ != id,
    ensures
        index_of_id(clips, id) is None,
    decreases clips.len(),
{
    if clips.len() > 0 {
        let rest = clips.drop_first();
        assert forall|k: int| 0 <= k < rest.len() implies (#[trigger] rest[k]).id@ != id by {
            assert(rest[k] == clips[k + 1]);
        }
        assert(clips[0].id@ != id);
        missing_id(rest, id);
    }
}

/// Whether no two clips share their id.
pub open spec fn ids_differ(clips: Seq<ClipRecord>) -> bool {
    forall|a: int, b: int|
        0 <= a < b < clips.len() ==> (#[trigger] clips[a]).id@ != (#[trigger] clips[b]).id@
}

pub(crate) proof fn found_by_id(clips: Seq<ClipRecord>, id: Seq<char>)
    ensures
        index_of_id(clips, id) matches Some(i) ==> 0 <= i < clips.len() && clips[i].id@ == id,
        index_of_id(clips, id) is None ==> forall|k: int|
            0 <= k < clips.len() ==> (#[trigger] clips[k]).id@ != id,
    decreases clips.len(),
{
    if clips.len() > 0 {
        let rest = clips.drop_first();
        found_by_id(rest, id);
        assert forall|k: int|
            index_of_id(clips, id) is None && 0 <= k < clips.len() implies (#[trigger] clips[k]).id@
            != id by {
            if k > 0 {
                assert(clips[k] == rest[k - 1]);
            }
        }
    }
}

pub(crate) proof fn a_new_id_keeps_ids_apart(clips: Seq<ClipRecord>, clip: ClipRecord)
    requires
        ids_differ(clips),
        index_of_id(clips, clip.id@) is None,
    ensures
        ids_differ(clips.push(clip)),
{
    found_by_id(clips, clip.id@);
}

pub(crate) proof fn findings_keep_ids_apart(clips: Seq<ClipRecord>, results: Seq<JobResult>)
    requires
        ids_differ(clips),
    ensures
        ids_differ(all_after(clips, results).0),
    decreases results.len(),
{
    if results.len() > 0 {
        findings_keep_ids_apart(clips, results.drop_last());
        let before = all_after(clips, results.drop_last()).0;
        found_by_id(before, results.last().id@);
    }
}

/// The editor lists every audio track of a file: once it was read, a clip whose
/// tracks had no names has as many as the file has tracks.
pub proof fn every_track_is_listed(clips: Seq<ClipRecord>, result: JobResult, i: int)
    requires
        index_of_id(clips, result.id@) == Some(i),
        result.info is Some,
        result.track_names.len() == result.info->0.audio_tracks,
        clips[i].audio_tracks.len() == 0,
    ensures
        clips_after(clips, result)[i].audio_tracks.len() == result.info->0.audio_tracks,
{
    found_by_id(clips, result.id@);
}

/// A clip that was deleted is gone from the index.
pub proof fn a_deleted_clip_is_gone(clips: Seq<ClipRecord>, i: int)
    requires
        0 <= i < clips.len(),
        ids_differ(clips),
    ensures
        index_of_id(clips.remove(i), clips[i].id@) is None,
{
    let left = clips.remove(i);
    assert forall|k: int| 0 <= k < left.len() implies (#[trigger] left[k]).id@ != clips[i].id@ by {
        if k < i {
            assert(left[k] == clips[k]);
        } else {
            assert(left[k] == clips[k + 1]);
        }
    }
    missing_id(left, clips[i].id@);
}

/// A file that was written is found in the index by its path, behind all
/// others.
pub proof fn a_written_file_is_found(clips: Seq<ClipRecord>, clip: ClipRecord)
    requires
        index_of_path(clips, clip.path@) is None,
    ensures
        index_of_path(clips.push(clip), clip.path@) == Some(clips.len() as int),
    decreases clips.len(),
{
    if clips.len() > 0 {
        assert(clips.push(clip).drop_first() =~= clips.drop_first().push(clip));
        a_written_file_is_found(clips.drop_first(), clip);
    } else {
        reveal_with_fuel(index_of_path, 2);
    }
}

/// The ids of jobs.
pub open spec fn job_ids(jobs: Seq<Job>) -> Seq<Seq<char>> {
    jobs.map_values(|j: Job| j.id@)
}

proof fn queued_ids_are_busy(
    clips: Seq<ClipRecord>,
    busy: Seq<Seq<char>>,
    ids: Seq<Seq<char>>,
    k: int,
)
    requires
        0 <= k < ids.len(),
        index_of_id(clips, ids[k]) is Some,
    ensures
        (busy + job_ids(jobs_for(clips, busy, ids))).contains(ids[k]),
    decreases ids.len(),
{
    let jobs = jobs_for(clips, busy, ids);
    let before = jobs_for(clips, busy, ids.drop_last());
    let all = busy + job_ids(jobs);
    if busy.contains(ids[k]) {
        let i = choose|i: int| 0 <= i < busy.len() && busy[i] == ids[k];
        assert(all[i] == ids[k]);
    } else if k == ids.len() - 1 {
        id_at_its_index(clips, ids[k]);
        assert(job_ids(jobs)[before.len() as int] == ids[k]);
        assert(all[(busy.len() + before.len()) as int] == ids[k]);
    } else {
        queued_ids_are_busy(clips, busy, ids.drop_last(), k);
        let earlier = busy + job_ids(before);
        let i = choose|i: int| 0 <= i < earlier.len() && earlier[i] == ids[k];
        assert(i >= busy.len()) by {
            if i < busy.len() {
                assert(busy[i] == ids[k]);
            }
        }
        assert(job_ids(jobs)[i - busy.len()] == job_ids(before)[i - busy.len()]);
        assert(all[i] == ids[k]);
    }
}

proof fn id_at_its_index(clips: Seq<ClipRecord>, id: Seq<char>)
    requires
        index_of_id(clips, id) is Some,
    ensures
        0 <= index_of_id(clips, id)->0 < clips.len(),
        clips[index_of_id(clips, id)->0].id@ == id,
    decreases clips.len(),
{
    if clips.len() > 0 && clips[0].id@ != id {
        id_at_its_index(clips.drop_first(), id);
    }
}

proof fn busy_ids_make_no_jobs(
    clips: Seq<ClipRecord>,
    busy: Seq<Seq<char>>,
    ids: Seq<Seq<char>>,
)
    requires
        forall|k: int|
            0 <= k < ids.len() && index_of_id(clips, ids[k]) is Some ==> busy.contains(
                #[trigger] ids[k],
            ),
    ensures
        jobs_for(clips, busy, ids).len() == 0,
    decreases ids.len(),
{
    if ids.len() > 0 {
        let rest = ids.drop_last();
        assert forall|k: int|
            0 <= k < rest.len() && index_of_id(clips, rest[k]) is Some implies busy.contains(
            #[trigger] rest[k],
        ) by {
            assert(rest[k] == ids[k]);
        }
        busy_ids_make_no_jobs(clips, busy, rest);
        assert(ids[ids.len() - 1] == ids.last());
    }
}

/// Work that is on its way is not queued again, however often it is asked
/// for.
pub proof fn work_is_queued_once(
    clips: Seq<ClipRecord>,
    busy: Seq<Seq<char>>,
    ids: Seq<Seq<char>>,
)
    ensures
        jobs_for(clips, busy + job_ids(jobs_for(clips, busy, ids)), ids).len() == 0,
{
    let after = busy + job_ids(jobs_for(clips, busy, ids));
    assert forall|k: int|
        0 <= k < ids.len() && index_of_id(clips, ids[k]) is Some implies after.contains(
        #[trigger] ids[k],
    ) by {
        queued_ids_are_busy(clips, busy, ids, k);
    }
    busy_ids_make_no_jobs(clips, after, ids);
}

/// A length is written in minutes and seconds, from an hour on in hours too.
pub proof fn a_length_is_written_in_parts(h: nat, m: nat, s: nat)
    requires
        m < 60,
        s < 60,
    ensures
        h == 0 ==> duration_text(m * 60 + s) == crate::text::dec(m) + ":"@
            + crate::text::zero_padded(crate::text::dec(s), 2),
        h > 0 ==> duration_text(h * 3600 + m * 60 + s) == crate::text::dec(h) + ":"@
            + crate::text::zero_padded(crate::text::dec(m), 2) + ":"@ + crate::text::zero_padded(
            crate::text::dec(s),
            2,
        ),
{
    let n = h * 3600 + m * 60 + s;
    assert(n / 3600 == h && (n % 3600) / 60 == m && n % 60 == s) by (nonlinear_arith)
        requires
            n == h * 3600 + m * 60 + s,
            m < 60,
            s < 60,
    ;
    if h == 0 {
        assert(n == m * 60 + s);
    }
}

/// Sizes are written in megabytes, from a gigabyte on in gigabytes with one decimal.
pub proof fn whole_sizes_are_written_plainly(n: u64)
    ensures
        n < 1024 ==> size_text((n * 0x10_0000) as u64) == crate::text::dec(n as nat) + " MB"@,
        1 <= n < 0x10_0000 ==> size_text((n * 0x4000_0000) as u64) == crate::text::dec(n as nat)
            + "."@ + crate::text::dec(0) + " GB"@,
{
    if n < 1024 {
        crate::numbers::small_numbers_are_exact((n * 0x10_0000) as nat);
    }
    if 1 <= n < 0x10_0000 {
        crate::numbers::small_numbers_are_exact((n * 0x4000_0000) as nat);
    }
}

/// A track without a name has its number, counted from one.
pub proof fn a_nameless_track_is_counted(names: Seq<Seq<char>>, i: int)
    requires
        0 <= i,
    ensures
        i < names.len() ==> track_name(names, i) == names[i],
        i >= names.len() ==> track_name(names, i) == crate::text::dec((i + 1) as nat),
{
}

} // verus!
