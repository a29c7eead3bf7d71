//! What the capture threads write into: whether the replay buffer takes
//! frames, the recording that is fed from the same streams, and the failure
//! that ended the capture.
use vstd::prelude::*;

use crate::error::CaptureError;
use crate::text::{all_digits, chars_of, decimal, find_last, find_last_text, join2, list_contains,
    slice_of};

verus! {

/// A file in a folder. The name is empty when the path names no file.
#[derive(Debug)]
pub struct FilePath {
    pub dir: String,
    pub name: String,
}

/// What a [`FilePath`] says.
pub struct FileView {
    pub dir: Seq<char>,
    pub name: Seq<char>,
}

impl View for FilePath {
    type V = FileView;

    open spec fn view(&self) -> FileView {
        FileView { dir: self.dir@, name: self.name@ }
    }
}

impl Clone for FilePath {
    fn clone(&self) -> (r: Self)
        ensures
            r == *self,
    {
        FilePath { dir: self.dir.clone(), name: self.name.clone() }
    }
}

/// A file name without its extension. A dot at the front starts no
/// extension.
pub open spec fn stem_of(name: Seq<char>) -> Seq<char> {
    let i = crate::text::last_index(name, '.');
    if i > 0 {
        name.take(i)
    } else {
        name
    }
}

/// What follows the last dot of a file name, if there is an extension.
pub open spec fn extension_of(name: Seq<char>) -> Option<Seq<char>> {
    let i = crate::text::last_index(name, '.');
    if i > 0 {
        Some(name.skip(i + 1))
    } else {
        None
    }
}

/// The name that the files of a recording share: the stem of the file
/// without a counter in brackets, `Recording` when there is no file name.
pub open spec fn part_base(name: Seq<char>) -> Seq<char> {
    let stem = if name.len() == 0 {
        "Recording"@
    } else {
        stem_of(name)
    };
    let i = crate::text::rfind(stem, " ("@);
    if i >= 0 && is_counter(stem.skip(i + 2)) {
        stem.take(i)
    } else {
        stem
    }
}

/// Whether a text is digits and a closing bracket.
pub open spec fn is_counter(tail: Seq<char>) -> bool {
    &&& tail.len() >= 2
    &&& tail.last() == ')'
    &&& forall|i: int| 0 <= i < tail.len() - 1 ==> crate::text::is_digit(#[trigger] tail[i])
}

/// The extension that the files of a recording share.
pub open spec fn part_extension(name: Seq<char>) -> Seq<char> {
    match extension_of(name) {
        Some(ext) => ext,
        None => "mp4"@,
    }
}

/// The `n`th file of a recording.
pub open spec fn numbered(name: Seq<char>, n: nat) -> Seq<char> {
    part_base(name) + " ("@ + crate::text::dec(n) + ")."@ + part_extension(name)
}

/// Whether neither the file nor its partial file exists.
pub open spec fn is_free(taken: Seq<Seq<char>>, name: Seq<char>) -> bool {
    !taken.contains(name) && !taken.contains(name + ".part"@)
}

/// Whether the recording goes on in `next` after `name`: the first free
/// number from two upwards, `name` itself when there is none.
pub open spec fn is_next_part(taken: Seq<Seq<char>>, name: Seq<char>, next: Seq<char>) -> bool {
    ||| exists|n: nat|
        2 <= n <= i32::MAX && next == #[trigger] numbered(name, n) && is_free(taken, next)
            && forall|m: nat| 2 <= m < n ==> !is_free(taken, #[trigger] numbered(name, m))
    ||| next == name && forall|m: nat|
        2 <= m <= i32::MAX ==> !is_free(taken, #[trigger] numbered(name, m))
}

fn split_name(name: &str) -> (r: (String, String))
    ensures
        r.0@ == (if name@.len() == 0 { "Recording"@ } else { stem_of(name@) }),
        r.1@ == part_extension(name@),
{
    let chars = chars_of(name);
    if chars.len() == 0 {
        return ("Recording".to_owned(), "mp4".to_owned());
    }
    match find_last(chars.as_slice(), '.') {
        Some(i) if i > 0 => {
            let stem = slice_of(chars.as_slice(), 0, i);
            let ext = slice_of(chars.as_slice(), i + 1, chars.len());
            assert(stem@ =~= stem_of(name@));
            assert(ext@ =~= name@.skip(i + 1));
            (stem, ext)
        },
        _ => (name.to_owned(), "mp4".to_owned()),
    }
}

fn base_of_stem(stem: &str) -> (r: String)
    ensures
        ({
            let i = crate::text::rfind(stem@, " ("@);
            r@ == if i >= 0 && is_counter(stem@.skip(i + 2)) {
                stem@.take(i)
            } else {
                stem@
            }
        }),
{
    proof {
        reveal_strlit(" (");
    }
    let chars = chars_of(stem);
    let open = chars_of(" (");
    match find_last_text(chars.as_slice(), open.as_slice()) {
        Some(i) => {
            let n: usize = chars.len();
            let ghost tail = stem@.skip(i + 2);
            assert(tail.len() == n - i - 2);
            assert(forall|k: int| 0 <= k < tail.len() ==> tail[k] == chars@[i + 2 + k]);
            if n - i >= 4 && chars[n - 1] == ')' && all_digits(chars.as_slice(), i + 2, n - 1) {
                assert forall|k: int| 0 <= k < tail.len() - 1 implies crate::text::is_digit(
                    #[trigger] tail[k],
                ) by {
                    assert(crate::text::is_digit(chars@[i + 2 + k]));
                }
                let base = slice_of(chars.as_slice(), 0, i);
                assert(base@ =~= stem@.take(i as int));
                base
            } else {
                assert(!is_counter(tail)) by {
                    if is_counter(tail) {
                        assert(chars@[n - 1] == tail.last());
                        assert forall|k: int| i + 2 <= k < n - 1 implies crate::text::is_digit(
                            #[trigger] chars@[k],
                        ) by {
                            assert(crate::text::is_digit(tail[k - i - 2]));
                        }
                    }
                }
                stem.to_owned()
            }
        },
        None => stem.to_owned(),
    }
}

/// The next `<name> (n).mp4` next to `path` whose final and partial files
/// are both free. A previous ` (n)` on the name is replaced, not stacked.
/// `taken` lists the names in the folder.
pub fn next_part_path(path: &FilePath, taken: &Vec<String>) -> (r: FilePath)
    ensures
        r.dir == path.dir,
        is_next_part(crate::text::views(taken@), path.name@, r.name@),
{
    let (stem, ext) = split_name(path.name.as_str());
    let base = base_of_stem(stem.as_str());
    let mut n: u64 = 2;
    while n <= 0x7fff_ffff
        invariant
            2 <= n <= 0x8000_0000,
            base@ == part_base(path.name@),
            ext@ == part_extension(path.name@),
            forall|m: nat|
                2 <= m < n ==> !is_free(
                    crate::text::views(taken@),
                    #[trigger] numbered(path.name@, m),
                ),
        decreases 0x8000_0000 - n,
    {
        let mut name = join2(base.as_str(), " (");
        name.append(decimal(n).as_str());
        name.append(").");
        name.append(ext.as_str());
        assert(name@ == numbered(path.name@, n as nat));
        let partial = join2(name.as_str(), ".part");
        if !list_contains(taken, name.as_str()) && !list_contains(taken, partial.as_str()) {
            return FilePath { dir: path.dir.clone(), name };
        }
        n = n + 1;
    }
    path.clone()
}

/// Numbered files, and their partial files, all differ from each other.
proof fn numbered_is_injective(name: Seq<char>, n: nat, m: nat)
    ensures
        numbered(name, n) == numbered(name, m) ==> n == m,
        numbered(name, n) + ".part"@ == numbered(name, m) + ".part"@ ==> n == m,
        numbered(name, n) != numbered(name, m) + ".part"@,
{
    reveal_strlit(" (");
    reveal_strlit(").");
    reveal_strlit(".part");
    let base = part_base(name);
    let ext = part_extension(name);
    let a = crate::text::dec(n);
    let b = crate::text::dec(m);
    let left = numbered(name, n);
    let right = numbered(name, m);
    crate::text::dec_is_digits(n);
    crate::text::dec_is_digits(m);
    let from: int = base.len() as int + 2;
    assert(left.subrange(from, from + a.len()) =~= a);
    assert(right.subrange(from, from + b.len()) =~= b);
    if left == right {
        assert(a.len() == b.len());
        crate::text::dec_is_injective(n, m);
    }
    if left + ".part"@ == right + ".part"@ {
        assert((left + ".part"@).len() == (right + ".part"@).len());
        assert((left + ".part"@).take(left.len() as int) =~= left);
        assert((right + ".part"@).take(right.len() as int) =~= right);
        crate::text::dec_is_injective(n, m);
    }
    if left == right + ".part"@ {
        assert(a.len() == b.len() + 5);
        let at: int = from + b.len();
        assert(right[at] == ')');
        assert((right + ".part"@)[at] == ')');
        assert(left[at] == a[b.len() as int]);
        assert(crate::text::is_digit(a[b.len() as int]));
    }
}

/// The place of the file that takes the `n`th name.
spec fn blocker(taken: Seq<Seq<char>>, name: Seq<char>, n: int) -> int {
    choose|i: int|
        0 <= i < taken.len() && (taken[i] == numbered(name, n as nat) || taken[i] == numbered(
            name,
            n as nat,
        ) + ".part"@)
}

/// However many files there are, one of the next names is free.
proof fn some_name_is_free(taken: Seq<Seq<char>>, name: Seq<char>) -> (n: nat)
    ensures
        2 <= n <= taken.len() + 2,
        is_free(taken, numbered(name, n)),
{
    let len = taken.len() as int;
    let numbers = vstd::set_lib::set_int_range(2, len + 3);
    if forall|n: int| 2 <= n <= len + 2 ==> !is_free(taken, #[trigger] numbered(name, n as nat)) {
        let f = |n: int| blocker(taken, name, n);
        assert forall|n: int| numbers.contains(n) implies ({
            let i = #[trigger] f(n);
            0 <= i < len && (taken[i] == numbered(name, n as nat) || taken[i] == numbered(
                name,
                n as nat,
            ) + ".part"@)
        }) by {
            assert(!is_free(taken, numbered(name, n as nat)));
            if taken.contains(numbered(name, n as nat)) {
                let i = choose|i: int| 0 <= i < len && taken[i] == numbered(name, n as nat);
                assert(taken[i] == numbered(name, n as nat));
            } else {
                let i = choose|i: int|
                    0 <= i < len && taken[i] == numbered(name, n as nat) + ".part"@;
                assert(taken[i] == numbered(name, n as nat) + ".part"@);
            }
        }
        assert(vstd::relations::injective_on(f, numbers)) by {
            assert forall|n: int, m: int|
                numbers.contains(n) && numbers.contains(m) && #[trigger] f(n) == #[trigger] f(
                    m,
                ) implies n == m by {
                numbered_is_injective(name, n as nat, m as nat);
                numbered_is_injective(name, m as nat, n as nat);
            }
        }
        let places = vstd::set_lib::set_int_range(0, len);
        vstd::set_lib::lemma_int_range(2, len + 3);
        vstd::set_lib::lemma_int_range(0, len);
        vstd::set_lib::lemma_map_size(numbers, numbers.map(f), f);
        assert(numbers.map(f).subset_of(places));
        vstd::set_lib::lemma_len_subset(numbers.map(f), places);
        assert(false);
        2
    } else {
        (choose|n: int| 2 <= n <= len + 2 && is_free(taken, #[trigger] numbered(name, n as nat)))
            as nat
    }
}

/// A recording goes on in a file of its own: the next name is one that
/// neither a file nor a partial file in the folder has.
pub proof fn the_next_part_is_a_new_file(
    taken: Seq<Seq<char>>,
    name: Seq<char>,
    next: Seq<char>,
)
    requires
        is_next_part(taken, name, next),
        taken.len() <= i32::MAX - 2,
    ensures
        is_free(taken, next),
        exists|n: nat| 2 <= n <= taken.len() + 2 && next == #[trigger] numbered(name, n),
{
    let free = some_name_is_free(taken, name);
    assert(is_free(taken, numbered(name, free)));
    assert(exists|n: nat|
        2 <= n <= i32::MAX && next == #[trigger] numbered(name, n) && is_free(taken, next)
            && forall|m: nat| 2 <= m < n ==> !is_free(taken, #[trigger] numbered(name, m)));
    let n = choose|n: nat|
        2 <= n <= i32::MAX && next == #[trigger] numbered(name, n) && is_free(taken, next)
            && forall|m: nat| 2 <= m < n ==> !is_free(taken, #[trigger] numbered(name, m));
    assert(n <= free);
}

/// The counter of a recording is replaced, not stacked: all parts of a
/// recording share their base name.
pub proof fn counters_do_not_stack(name: Seq<char>, n: nat)
    ensures
        part_base(numbered(name, n)) == part_base(name),
        part_extension(numbered(name, n)) == part_extension(name),
{
    reveal_strlit(" (");
    reveal_strlit(").");
    let base = part_base(name);
    let ext = part_extension(name);
    let digits = crate::text::dec(n);
    let full = numbered(name, n);
    crate::text::dec_is_digits(n);
    assert(!ext.contains('.')) by {
        reveal_strlit("mp4");
        crate::text::nothing_after_last(name, '.');
        if ext.contains('.') {
            let k = choose|k: int| 0 <= k < ext.len() && ext[k] == '.';
            if extension_of(name) is Some {
                assert(name[k + crate::text::last_index(name, '.') + 1] == '.');
            }
        }
    }
    let stem = base + " ("@ + digits + seq![')'];
    assert(full =~= stem + seq!['.'] + ext);
    last_dot(stem, ext);
    assert(stem_of(full) =~= stem);
    assert(extension_of(full) =~= Some(ext)) by {
        assert(full.skip(stem.len() as int + 1) =~= ext);
    }
    last_bracket(base, digits);
    let i = base.len() as int;
    assert(stem.skip(i + 2) =~= digits + seq![')']);
    assert(is_counter(stem.skip(i + 2))) by {
        let tail = digits + seq![')'];
        assert forall|k: int| 0 <= k < tail.len() - 1 implies crate::text::is_digit(
            #[trigger] tail[k],
        ) by {
            assert(tail[k] == digits[k]);
        }
    }
    assert(stem.take(i) =~= base);
}

proof fn last_dot(stem: Seq<char>, ext: Seq<char>)
    requires
        !ext.contains('.'),
    ensures
        crate::text::last_index(stem + seq!['.'] + ext, '.') == stem.len(),
    decreases ext.len(),
{
    let full = stem + seq!['.'] + ext;
    if ext.len() == 0 {
        assert(full.last() == '.');
    } else {
        assert(full.last() == ext.last());
        assert(ext.contains(ext.last()));
        assert(full.drop_last() =~= stem + seq!['.'] + ext.drop_last());
        assert(!ext.drop_last().contains('.')) by {
            if ext.drop_last().contains('.') {
                let k = choose|k: int| 0 <= k < ext.len() - 1 && ext.drop_last()[k] == '.';
                assert(ext[k] == '.');
            }
        }
        last_dot(stem, ext.drop_last());
    }
}

proof fn last_bracket(base: Seq<char>, digits: Seq<char>)
    requires
        forall|i: int| 0 <= i < digits.len() ==> crate::text::is_digit(#[trigger] digits[i]),
    ensures
        crate::text::rfind(base + " ("@ + digits + seq![')'], " ("@) == base.len(),
{
    reveal_strlit(" (");
    let s = base + " ("@ + digits + seq![')'];
    last_bracket_from(base, digits, s.len() - 2);
}

proof fn last_bracket_from(base: Seq<char>, digits: Seq<char>, i: int)
    requires
        forall|i: int| 0 <= i < digits.len() ==> crate::text::is_digit(#[trigger] digits[i]),
        base.len() <= i <= base.len() + digits.len() + 1,
    ensures
        crate::text::rfind_up_to(base + " ("@ + digits + seq![')'], " ("@, i) == base.len(),
    decreases i,
{
    reveal_strlit(" (");
    let s = base + " ("@ + digits + seq![')'];
    if i == base.len() {
        assert(s.subrange(i, i + 2) =~= " ("@);
    } else {
        let part = s.subrange(i, i + 2);
        assert(part[1] == s[i + 1]);
        assert(" ("@[1] == '(');
        if i + 1 < s.len() - 1 {
            assert(s[i + 1] == digits[i - 1 - base.len()]);
        }
        assert(s[i + 1] != '(');
        last_bracket_from(base, digits, i - 1);
    }
}

/// A recording as the capture threads see it. Times are nanoseconds.
#[derive(Debug)]
pub enum SinkRecording {
    Idle,
    /// Waiting for the next keyframe to open the file.
    Pending(FilePath),
    Active { path: FilePath, first: u64, last: u64 },
    Failed(String),
}

/// What a [`SinkRecording`] says.
pub enum RecordingView {
    Idle,
    Pending(FileView),
    Active { path: FileView, first: u64, last: u64 },
    Failed(Seq<char>),
}

impl View for SinkRecording {
    type V = RecordingView;

    open spec fn view(&self) -> RecordingView {
        match self {
            SinkRecording::Idle => RecordingView::Idle,
            SinkRecording::Pending(path) => RecordingView::Pending(path@),
            SinkRecording::Active { path, first, last } => RecordingView::Active {
                path: path@,
                first: *first,
                last: *last,
            },
            SinkRecording::Failed(reason) => RecordingView::Failed(reason@),
        }
    }
}

/// Everything the capture threads write into.
#[derive(Debug)]
pub struct CaptureSink {
    pub buffer_enabled: bool,
    pub recording: SinkRecording,
    pub failure: Option<CaptureError>,
}

/// What to do with a frame for the recording.
#[derive(Debug)]
pub enum FeedStep {
    /// The recording does not take the frame.
    Skip,
    /// Open the file and push the frame, then report with
    /// [`CaptureSink::recording_opened`].
    Open(FilePath),
    /// Push the frame, then report with [`CaptureSink::recording_pushed`].
    Push,
}

impl CaptureSink {
    /// A sink that takes nothing yet.
    pub fn new() -> (r: Self)
        ensures
            !r.buffer_enabled,
            r.recording == SinkRecording::Idle,
            r.failure is None,
    {
        CaptureSink { buffer_enabled: false, recording: SinkRecording::Idle, failure: None }
    }

    /// A new stream cannot continue in the open file: after a capture
    /// restart the timestamps start over, and after a mode change the muxer
    /// cannot switch caps. The file is closed as it is and the next keyframe
    /// opens a numbered sibling, so a display change mid recording costs a
    /// cut, not the recording. Returns the file to close; `taken` lists the
    /// names in its folder.
    pub fn rotate_recording(&mut self, taken: &Vec<String>) -> (r: Option<FilePath>)
        ensures
            final(self).buffer_enabled == old(self).buffer_enabled,
            final(self).failure == old(self).failure,
            final(self).recording is Idle == old(self).recording is Idle,
            match old(self).recording {
                SinkRecording::Active { path, .. } => {
                    &&& r == Some(path)
                    &&& final(self).recording matches SinkRecording::Pending(next)
                    &&& next.dir == path.dir
                    &&& is_next_part(crate::text::views(taken@), path.name@, next.name@)
                },
                _ => r is None && final(self).recording == old(self).recording,
            },
    {
        let closed = match &self.recording {
            SinkRecording::Active { path, .. } => path.clone(),
            _ => return None,
        };
        let next = next_part_path(&closed, taken);
        self.recording = SinkRecording::Pending(next);
        Some(closed)
    }

    /// Decides what a video frame means for the recording. A pending
    /// recording opens its file at the first keyframe of a known stream.
    pub fn feed_recording(&self, keyframe: bool, stream_known: bool) -> (r: FeedStep)
        ensures
            r == match self.recording {
                SinkRecording::Pending(path) => if keyframe && stream_known {
                    FeedStep::Open(path)
                } else {
                    FeedStep::Skip
                },
                SinkRecording::Active { .. } => FeedStep::Push,
                _ => FeedStep::Skip,
            },
    {
        match &self.recording {
            SinkRecording::Pending(path) => {
                if keyframe && stream_known {
                    FeedStep::Open(path.clone())
                } else {
                    FeedStep::Skip
                }
            },
            SinkRecording::Active { .. } => FeedStep::Push,
            SinkRecording::Idle => FeedStep::Skip,
            SinkRecording::Failed(_) => FeedStep::Skip,
        }
    }

    /// Takes note of how opening the file, with the first frame in it, went.
    pub fn recording_opened(&mut self, pts: u64, result: Result<(), CaptureError>)
        ensures
            final(self).buffer_enabled == old(self).buffer_enabled,
            final(self).failure == old(self).failure,
            final(self).recording is Idle == old(self).recording is Idle,
            match old(self).recording {
                SinkRecording::Pending(path) => match result {
                    Ok(()) => final(self).recording == (SinkRecording::Active {
                        path,
                        first: pts,
                        last: pts,
                    }),
                    Err(err) => final(self).recording matches SinkRecording::Failed(reason)
                        && reason@ == err.text(),
                },
                _ => final(self).recording == old(self).recording,
            },
    {
        let path = match &self.recording {
            SinkRecording::Pending(path) => path.clone(),
            _ => return ,
        };
        self.recording = match result {
            Ok(()) => SinkRecording::Active { path, first: pts, last: pts },
            Err(err) => SinkRecording::Failed(err.message()),
        };
    }

    /// Takes note of how pushing a frame went.
    pub fn recording_pushed(&mut self, pts: u64, result: Result<(), CaptureError>)
        ensures
            final(self).buffer_enabled == old(self).buffer_enabled,
            final(self).failure == old(self).failure,
            final(self).recording is Idle == old(self).recording is Idle,
            match old(self).recording {
                SinkRecording::Active { path, first, .. } => match result {
                    Ok(()) => final(self).recording == (SinkRecording::Active {
                        path,
                        first,
                        last: pts,
                    }),
                    Err(err) => final(self).recording matches SinkRecording::Failed(reason)
                        && reason@ == err.text(),
                },
                _ => final(self).recording == old(self).recording,
            },
    {
        let (path, first) = match &self.recording {
            SinkRecording::Active { path, first, .. } => (path.clone(), *first),
            _ => return ,
        };
        self.recording = match result {
            Ok(()) => SinkRecording::Active { path, first, last: pts },
            Err(err) => SinkRecording::Failed(err.message()),
        };
    }

    /// Whether an audio packet goes to the recording. Report how pushing it
    /// went with [`CaptureSink::recording_audio_pushed`].
    pub fn feed_recording_audio(&self) -> (r: bool)
        ensures
            r == (self.recording is Active),
    {
        matches!(self.recording, SinkRecording::Active { .. })
    }

    /// Takes note of how pushing an audio packet went.
    pub fn recording_audio_pushed(&mut self, result: Result<(), CaptureError>)
        ensures
            final(self).buffer_enabled == old(self).buffer_enabled,
            final(self).failure == old(self).failure,
            final(self).recording is Idle == old(self).recording is Idle,
            match (old(self).recording, result) {
                (SinkRecording::Active { .. }, Err(err)) =>
                    final(self).recording matches SinkRecording::Failed(reason)
                        && reason@ == err.text(),
                _ => final(self).recording == old(self).recording,
            },
    {
        if let Err(err) = result {
            if self.feed_recording_audio() {
                self.recording = SinkRecording::Failed(err.message());
            }
        }
    }

    /// Whether the replay buffer takes frames and audio packets.
    pub fn buffers(&self) -> (r: bool)
        ensures
            r == self.buffer_enabled,
    {
        self.buffer_enabled
    }

    /// A fatal capture failure. The last one counts.
    pub fn on_error(&mut self, error: CaptureError)
        ensures
            *final(self) == (CaptureSink { failure: Some(error), ..*old(self) }),
    {
        self.failure = Some(error);
    }
}

/// The next file of a recording is named after it, with the first number from two
/// on that is free.
pub proof fn parts_are_counted_from_two(
    taken: Seq<Seq<char>>,
    name: Seq<char>,
    next: Seq<char>,
    n: nat,
)
    requires
        is_next_part(taken, name, next),
        2 <= n <= i32::MAX,
        is_free(taken, numbered(name, n)),
        forall|m: nat|
            2 <= m < n ==> taken.contains(#[trigger] numbered(name, m)) || taken.contains(
                numbered(name, m) + ".part"@,
            ),
    ensures
        next == numbered(name, n),
{
    if exists|k: nat|
        2 <= k <= i32::MAX && next == #[trigger] numbered(name, k) && is_free(taken, next)
            && forall|m: nat| 2 <= m < k ==> !is_free(taken, #[trigger] numbered(name, m)) {
        let k = choose|k: nat|
            2 <= k <= i32::MAX && next == #[trigger] numbered(name, k) && is_free(taken, next)
                && forall|m: nat| 2 <= m < k ==> !is_free(taken, #[trigger] numbered(name, m));
        if k < n {
            assert(!is_free(taken, numbered(name, k)));
        }
        if n < k {
            assert(!is_free(taken, numbered(name, n)));
        }
    }
}

/// A file of a recording keeps the stem and the extension of the first one, with
/// the number in brackets between them.
pub proof fn a_part_keeps_stem_and_extension(stem: Seq<char>, extension: Seq<char>, n: nat)
    requires
        stem.len() > 0,
        !extension.contains('.'),
        crate::text::rfind(stem, " ("@) < 0,
    ensures
        numbered(stem + seq!['.'] + extension, n) == stem + " ("@ + crate::text::dec(n) + ")."@
            + extension,
{
    let name = stem + seq!['.'] + extension;
    last_dot(stem, extension);
    assert(name.take(stem.len() as int) =~= stem);
    assert(name.skip(stem.len() as int + 1) =~= extension);
}

/// A dot at the front of a name starts no extension.
pub proof fn a_leading_dot_starts_no_extension(rest: Seq<char>)
    requires
        !rest.contains('.'),
    ensures
        stem_of(seq!['.'] + rest) == seq!['.'] + rest,
        extension_of(seq!['.'] + rest) is None,
        stem_of(rest) == rest,
        extension_of(rest) is None,
        rest.len() > 0 ==> part_extension(rest) == "mp4"@,
{
    let name = seq!['.'] + rest;
    crate::text::nothing_after_last(name, '.');
    crate::text::nothing_after_last(rest, '.');
    let i = crate::text::last_index(name, '.');
    if i > 0 {
        assert(rest[i - 1] == '.');
    }
}

/// A name is free only while neither its file nor its partial file is there.
pub proof fn a_partial_file_takes_the_name(taken: Seq<Seq<char>>, name: Seq<char>, k: int)
    requires
        0 <= k < taken.len(),
        taken[k] == name || taken[k] == name + ".part"@,
    ensures
        forall|other: Seq<char>| is_next_part(taken, other, name) ==> name == other,
{
    assert(taken.contains(taken[k]));
}

/// Only digits in brackets are a counter.
pub proof fn only_digits_are_a_counter(text: Seq<char>)
    ensures
        is_counter(text.push(')')) <==> text.len() > 0 && forall|i: int|
            0 <= i < text.len() ==> '0' <= #[trigger] text[i] <= '9',
        text.len() > 0 && text.last() != ')' ==> !is_counter(text),
{
    let tail = text.push(')');
    assert(forall|i: int| 0 <= i < text.len() ==> tail[i] == text[i]);
    if is_counter(tail) {
        assert forall|i: int| 0 <= i < text.len() implies '0' <= #[trigger] text[i] <= '9' by {
            assert(crate::text::is_digit(tail[i]));
        }
    }
}

} // verus!
