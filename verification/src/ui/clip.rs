//! The player page: the clip that is open, and its editor. Times are in
//! milliseconds.
use vstd::prelude::*;

use super::events::ClipFile;
use super::format_megabytes;
use crate::library::ClipRecord;
use crate::paths::with_extension;
use crate::text::{decimal, join2, join3, padded, trim};

verus! {

/// An audio track in the editor.
#[derive(Debug)]
pub struct AudioTrackRow {
    pub name: String,
    pub enabled: bool,
}

/// The part of the clip that is selected, in the editor.
#[derive(Debug)]
pub struct Selection {
    pub start: u64,
    pub end: u64,
    pub start_text: String,
    pub end_text: String,
    pub summary: String,
}

/// A time with milliseconds.
pub open spec fn precise(ms: u64) -> Seq<char> {
    crate::text::dec((ms / 60_000) as nat) + ":"@ + crate::text::zero_padded(
        crate::text::dec(((ms % 60_000) / 1000) as nat),
        2,
    ) + "."@ + crate::text::zero_padded(crate::text::dec((ms % 1000) as nat), 3)
}

/// Writes a time with milliseconds.
pub fn format_precise(ms: u64) -> (r: String)
    ensures
        r@ == precise(ms),
{
    let mut text = join3(
        decimal(ms / 60_000).as_str(),
        ":",
        padded((ms % 60_000) / 1000, 2).as_str(),
    );
    text.append(".");
    text.append(padded(ms % 1000, 3).as_str());
    text
}

impl Selection {
    /// Whether the texts say what is selected.
    pub open spec fn is_told(self) -> bool {
        &&& self.start_text@ == precise(self.start)
        &&& self.end_text@ == precise(self.end)
        &&& self.summary@ == "Selection: "@ + precise(
            if self.end > self.start {
                (self.end - self.start) as u64
            } else {
                0
            },
        )
    }

    /// Whether the selection ends where it starts or later.
    pub open spec fn is_ordered(self) -> bool {
        self.start <= self.end
    }

    /// A selection with its texts.
    pub fn new(start: u64, end: u64) -> (r: Self)
        ensures
            r.start == start,
            r.end == end,
            r.is_told(),
    {
        let length: u64 = if end > start {
            end - start
        } else {
            0
        };
        Selection {
            start,
            end,
            start_text: format_precise(start),
            end_text: format_precise(end),
            summary: join2("Selection: ", format_precise(length).as_str()),
        }
    }

    /// Starts the selection where the playback is, no later than it ends.
    pub fn set_in(&mut self, position: u64)
        ensures
            final(self).start == if position < old(self).end {
                position
            } else {
                old(self).end
            },
            final(self).end == old(self).end,
            final(self).is_told(),
            final(self).is_ordered(),
    {
        let start: u64 = if position < self.end {
            position
        } else {
            self.end
        };
        *self = Selection::new(start, self.end);
    }

    /// Ends the selection where the playback is, no earlier than it starts.
    pub fn set_out(&mut self, position: u64)
        ensures
            final(self).start == old(self).start,
            final(self).end == if position > old(self).start {
                position
            } else {
                old(self).start
            },
            final(self).is_told(),
            final(self).is_ordered(),
    {
        let end: u64 = if position > self.start {
            position
        } else {
            self.start
        };
        *self = Selection::new(self.start, end);
    }

    /// Ends the selection at a point of the clip, no earlier than it starts
    /// and no later than the clip ends.
    pub fn set_out_at(&mut self, at: u64, duration: u64)
        requires
            old(self).start <= duration,
        ensures
            final(self).start == old(self).start,
            final(self).end == if at < old(self).start {
                old(self).start
            } else if at > duration {
                duration
            } else {
                at
            },
            final(self).is_told(),
            final(self).is_ordered(),
    {
        let end: u64 = if at < self.start {
            self.start
        } else if at > duration {
            duration
        } else {
            at
        };
        *self = Selection::new(self.start, end);
    }
}

/// Where a skip by `delta` goes: no further than the ends of the clip.
pub open spec fn skipped(position: u64, delta: i64, duration: u64) -> int {
    let to = position + delta;
    if to < 0 {
        0
    } else if to > duration {
        duration as int
    } else {
        to
    }
}

/// Where a skip by `delta` goes: no further than the ends of the clip.
pub fn skip_target(position: u64, delta: i64, duration: u64) -> (r: u64)
    ensures
        r == skipped(position, delta, duration),
{
    let to: i128 = position as i128 + delta as i128;
    if to < 0 {
        0
    } else if to > duration as i128 {
        duration
    } else {
        to as u64
    }
}

/// The sound of the player. The volume is an `f32` by its bits, a percentage.
#[derive(Debug, Clone, Copy, PartialEq, Eq, Structural)]
pub struct Sound {
    pub muted: bool,
    pub volume: u32,
}

impl Sound {
    /// Another volume is chosen; the player is no longer muted then.
    pub fn volume_changed(&mut self, volume: u32)
        ensures
            *final(self) == (Sound { muted: false, volume }),
    {
        self.muted = false;
        self.volume = volume;
    }

    /// Mutes the player, or lets it be heard again. Returns the volume it
    /// gets.
    pub fn toggle_mute(&mut self) -> (r: u32)
        ensures
            *final(self) == (Sound { muted: !old(self).muted, ..*old(self) }),
            r == if final(self).muted {
                0
            } else {
                old(self).volume
            },
    {
        self.muted = !self.muted;
        if self.muted {
            0
        } else {
            self.volume
        }
    }
}

/// The player page, apart from the playback itself.
#[derive(Debug)]
pub struct PlayerPage {
    pub title: String,
    pub path: String,
    pub details: String,
    pub message: String,
    pub renaming: bool,
    pub confirm_delete: bool,
    pub editing: bool,
    pub save_prompt: bool,
    pub compress_open: bool,
    pub tracks: Vec<AudioTrackRow>,
    pub trim_busy: bool,
    pub trim_message: String,
    pub selection: Selection,
}

/// What the page says about a clip.
pub open spec fn details_text(clip: ClipRecord) -> Seq<char> {
    (match clip.game {
        Some(game) => game@,
        None => clip.kind.name(),
    }) + "  |  "@ + crate::text::dec(clip.width as nat) + "x"@ + crate::text::dec(
        clip.height as nat,
    ) + "  |  "@ + super::megabytes(clip.bytes) + " MB  |  "@ + clip.path@
}

fn describe_clip(clip: &ClipRecord) -> (r: String)
    ensures
        r@ == details_text(*clip),
{
    let mut text = match &clip.game {
        Some(game) => game.clone(),
        None => clip.kind.label().to_owned(),
    };
    text.append("  |  ");
    text.append(decimal(clip.width as u64).as_str());
    text.append("x");
    text.append(decimal(clip.height as u64).as_str());
    text.append("  |  ");
    text.append(format_megabytes(clip.bytes).as_str());
    text.append(" MB  |  ");
    text.append(clip.path.as_str());
    text
}

/// Whether all tracks with these names are on.
pub open spec fn all_on(tracks: Seq<AudioTrackRow>, names: Seq<String>) -> bool {
    tracks.len() == names.len() && forall|i: int|
        0 <= i < tracks.len() ==> (#[trigger] tracks[i]).enabled && tracks[i].name@ == names[i]@
}

/// The page for a clip that is opened: everything of it is selected, every
/// track is on.
pub fn open_clip(clip: &ClipRecord, playable: bool) -> (r: PlayerPage)
    ensures
        r.title@ == clip.title@,
        r.path@ == clip.path@,
        r.details@ == details_text(*clip),
        r.message@ == if playable {
            ""@
        } else {
            "Playback is unavailable on this system."@
        },
        !r.renaming && !r.confirm_delete && !r.editing && !r.save_prompt && !r.compress_open,
        all_on(r.tracks@, clip.audio_tracks@),
        !r.trim_busy,
        r.trim_message@ == ""@,
        r.selection.start == 0,
        r.selection.end == clip.duration_ms,
        r.selection.is_told(),
{
    let mut tracks: Vec<AudioTrackRow> = Vec::new();
    let mut i: usize = 0;
    while i < clip.audio_tracks.len()
        invariant
            i <= clip.audio_tracks.len(),
            all_on(tracks@, clip.audio_tracks@.take(i as int)),
        decreases clip.audio_tracks.len() - i,
    {
        tracks.push(AudioTrackRow { name: clip.audio_tracks[i].clone(), enabled: true });
        i = i + 1;
    }
    assert(clip.audio_tracks@.take(i as int) =~= clip.audio_tracks@);
    let message = if playable {
        "".to_owned()
    } else {
        "Playback is unavailable on this system.".to_owned()
    };
    PlayerPage {
        title: clip.title.clone(),
        path: clip.path.clone(),
        details: describe_clip(clip),
        message,
        renaming: false,
        confirm_delete: false,
        editing: false,
        save_prompt: false,
        compress_open: false,
        tracks,
        trim_busy: false,
        trim_message: "".to_owned(),
        selection: Selection::new(0, clip.duration_ms),
    }
}

/// Takes over how renaming the open clip went. `path` is where the file is
/// now, if the clip is still known. Returns whether the gallery changed.
pub fn renamed(
    page: &mut PlayerPage,
    title: &str,
    result: Result<(), String>,
    path: Option<String>,
) -> (r: bool)
    ensures
        r == (result is Ok),
        match result {
            Ok(_) => {
                &&& final(page).title@ == crate::text::trimmed(title@)
                &&& final(page).path == match path {
                    Some(path) => path,
                    None => old(page).path,
                }
                &&& *final(page) == (PlayerPage {
                    title: final(page).title,
                    path: final(page).path,
                    renaming: false,
                    ..*old(page)
                })
            },
            Err(reason) => *final(page) == (PlayerPage { message: reason, ..*old(page) }),
        },
{
    match result {
        Ok(_) => {
            page.title = trim(title);
            page.renaming = false;
            if let Some(path) = path {
                page.path = path;
            }
            true
        },
        Err(reason) => {
            page.message = reason;
            false
        },
    }
}

/// Takes over how deleting the open clip went. Returns whether the gallery is
/// shown next.
pub fn deleted(page: &mut PlayerPage, result: Result<(), String>) -> (r: bool)
    ensures
        r == (result is Ok),
        *final(page) == (PlayerPage {
            confirm_delete: false,
            message: match result {
                Ok(_) => old(page).message,
                Err(reason) => reason,
            },
            ..*old(page)
        }),
{
    page.confirm_delete = false;
    match result {
        Ok(_) => true,
        Err(reason) => {
            page.message = reason;
            false
        },
    }
}

/// Which tracks stay.
pub open spec fn kept(tracks: Seq<AudioTrackRow>) -> Seq<bool> {
    tracks.map_values(|t: AudioTrackRow| t.enabled)
}

/// Audio tracks kept for a cut, from the editor's toggles.
pub fn kept_tracks(tracks: &Vec<AudioTrackRow>) -> (r: Vec<bool>)
    ensures
        r@ == kept(tracks@),
{
    let mut out: Vec<bool> = Vec::new();
    let mut i: usize = 0;
    while i < tracks.len()
        invariant
            i <= tracks.len(),
            out@ == kept(tracks@).take(i as int),
        decreases tracks.len() - i,
    {
        assert(kept(tracks@).take(i + 1) =~= kept(tracks@).take(i as int).push(
            tracks@[i as int].enabled,
        ));
        out.push(tracks[i].enabled);
        i = i + 1;
    }
    assert(kept(tracks@).take(i as int) =~= kept(tracks@));
    out
}

/// How a cut is made.
#[derive(Debug, Clone, Copy, PartialEq, Eq, Structural)]
pub enum TrimMode {
    /// The frames are copied; the cut lies on keyframes.
    StreamCopy,
    /// The selection is encoded again.
    FrameAccurate,
}

/// A part of a clip.
#[derive(Debug, Clone, Copy, PartialEq, Eq, Structural)]
pub struct TrimRange {
    pub start: u64,
    pub end: u64,
}

/// A cut or a compression.
#[derive(Debug)]
pub struct TrimJob {
    pub input: String,
    pub output: String,
    pub range: TrimRange,
    pub mode: TrimMode,
    pub video_bitrate_kbps: u32,
    pub audio_bitrate_kbps: u32,
    pub scale_height: Option<u32>,
    pub keep_audio: Vec<bool>,
    pub audio_labels: Vec<String>,
}

/// The length of a clip as far as an edit knows it: that of the player where
/// the index has none.
pub open spec fn edit_duration(clip: ClipRecord, shown: u64) -> u64 {
    if clip.duration_ms == 0 {
        shown
    } else {
        clip.duration_ms
    }
}

/// The part of a clip that a cut is asked for, and the length of the clip.
/// `shown` is the length that the player knows.
pub fn wanted_range(page: &PlayerPage, clip: Option<&ClipRecord>, shown: u64) -> (r: Result<
    (TrimRange, u64),
    String,
>)
    ensures
        match clip {
            Some(clip) => r matches Ok(asked) && asked.0 == (TrimRange {
                start: page.selection.start,
                end: page.selection.end,
            }) && asked.1 == edit_duration(*clip, shown),
            None => r matches Err(text) && text@ == "Open a clip first."@,
        },
{
    match clip {
        Some(clip) => {
            let duration: u64 = if clip.duration_ms == 0 {
                shown
            } else {
                clip.duration_ms
            };
            Ok((TrimRange { start: page.selection.start, end: page.selection.end }, duration))
        },
        None => Err("Open a clip first.".to_owned()),
    }
}

fn copy_names(names: &Vec<String>) -> (r: Vec<String>)
    ensures
        crate::text::views(r@) == crate::text::views(names@),
{
    let mut out: Vec<String> = Vec::new();
    let mut i: usize = 0;
    while i < names.len()
        invariant
            i <= names.len(),
            out.len() == i,
            forall|k: int| 0 <= k < i ==> (#[trigger] out@[k])@ == names@[k]@,
        decreases names.len() - i,
    {
        out.push(names[i].clone());
        i = i + 1;
    }
    assert(crate::text::views(out@) =~= crate::text::views(names@));
    out
}

fn drops_a_track(keep: &Vec<bool>) -> (r: bool)
    ensures
        r == keep@.contains(false),
{
    let mut i: usize = 0;
    while i < keep.len()
        invariant
            i <= keep.len(),
            forall|k: int| 0 <= k < i ==> #[trigger] keep@[k],
        decreases keep.len() - i,
    {
        if !keep[i] {
            assert(keep@[i as int] == false);
            return true;
        }
        i = i + 1;
    }
    false
}

/// How the edit of a clip is made: the quality that is recorded, and the
/// file that it goes to when it does not replace the clip.
#[derive(Debug)]
pub struct EditSetup {
    pub video_bitrate_kbps: u32,
    pub audio_bitrate_kbps: u32,
    pub beside: String,
}

/// The cut that is asked for, and what is said while it is made. `range` is
/// the part of the clip, or why it is none; `whole` says whether it is all of
/// it. A cut that replaces the clip is first made beside it.
pub fn save_trim(
    page: &PlayerPage,
    clip: &ClipRecord,
    range: Result<TrimRange, String>,
    whole: bool,
    mode_index: i32,
    overwrite: bool,
    setup: EditSetup,
) -> (r: Result<(TrimJob, &'static str), String>)
    ensures
        match range {
            Err(reason) => r == Err::<(TrimJob, &'static str), String>(reason),
            Ok(range) => if whole && !kept(page.tracks@).contains(false) {
                r matches Err(text) && text@
                    == "The selection covers the whole clip and every track is on; nothing to save."@
            } else {
                r matches Ok(made) && {
                    let job = made.0;
                    let mode = if mode_index == 1 {
                        TrimMode::FrameAccurate
                    } else {
                        TrimMode::StreamCopy
                    };
                    &&& job.input@ == clip.path@
                    &&& job.output@ == if overwrite {
                        crate::paths::extended(clip.path@, "mp4.trimmed"@)
                    } else {
                        setup.beside@
                    }
                    &&& job.range == range
                    &&& job.mode == mode
                    &&& job.video_bitrate_kbps == setup.video_bitrate_kbps
                    &&& job.audio_bitrate_kbps == setup.audio_bitrate_kbps
                    &&& job.scale_height is None
                    &&& job.keep_audio@ == kept(page.tracks@)
                    &&& crate::text::views(job.audio_labels@) == crate::text::views(
                        clip.audio_tracks@,
                    )
                    &&& made.1@ == match mode {
                        TrimMode::StreamCopy => "Cutting..."@,
                        TrimMode::FrameAccurate => "Re-encoding the selection, this takes a moment..."@,
                    }
                }
            },
        },
{
    let range = match range {
        Ok(range) => range,
        Err(reason) => return Err(reason),
    };
    let keep_audio = kept_tracks(&page.tracks);
    if whole && !drops_a_track(&keep_audio) {
        return Err(
            "The selection covers the whole clip and every track is on; nothing to save.".to_owned(),
        );
    }
    let exact = mode_index == 1;
    let output = if overwrite {
        with_extension(clip.path.as_str(), "mp4.trimmed")
    } else {
        setup.beside
    };
    let job = TrimJob {
        input: clip.path.clone(),
        output,
        range,
        mode: if exact {
            TrimMode::FrameAccurate
        } else {
            TrimMode::StreamCopy
        },
        video_bitrate_kbps: setup.video_bitrate_kbps,
        audio_bitrate_kbps: setup.audio_bitrate_kbps,
        scale_height: None,
        keep_audio,
        audio_labels: copy_names(&clip.audio_tracks),
    };
    let message = if exact {
        "Re-encoding the selection, this takes a moment..."
    } else {
        "Cutting..."
    };
    Ok((job, message))
}

/// A size that clips are compressed to.
#[derive(Debug, Clone, Copy, PartialEq, Eq, Structural)]
pub struct CompressPreset {
    pub height: u32,
    pub bitrate_kbps: u32,
}

/// The preset that is chosen, the first one where there is no such preset.
pub open spec fn preset_at(presets: Seq<CompressPreset>, index: int) -> CompressPreset {
    if 0 <= index < presets.len() {
        presets[index]
    } else {
        presets[0]
    }
}

/// The compression that is asked for. `range` is all of the clip, or why it
/// is no range. A picture is never made taller.
pub fn compress_clip(
    page: &PlayerPage,
    clip: &ClipRecord,
    range: Result<TrimRange, String>,
    presets: &Vec<CompressPreset>,
    index: i32,
    output: String,
) -> (r: Result<(TrimJob, &'static str), String>)
    requires
        presets.len() > 0,
    ensures
        match range {
            Err(reason) => r == Err::<(TrimJob, &'static str), String>(reason),
            Ok(range) => r matches Ok(made) && {
                let job = made.0;
                let preset = preset_at(
                    presets@,
                    if index < 0 {
                        0
                    } else {
                        index as int
                    },
                );
                &&& job.input@ == clip.path@
                &&& job.output == output
                &&& job.range == range
                &&& job.mode == TrimMode::FrameAccurate
                &&& job.video_bitrate_kbps == preset.bitrate_kbps
                &&& job.audio_bitrate_kbps == 128
                &&& job.scale_height == if clip.height > preset.height {
                    Some(preset.height)
                } else {
                    None
                }
                &&& job.keep_audio@ == kept(page.tracks@)
                &&& crate::text::views(job.audio_labels@) == crate::text::views(clip.audio_tracks@)
                &&& made.1@ == "Compressing, this takes a moment..."@
            },
        },
{
    let range = match range {
        Ok(range) => range,
        Err(reason) => return Err(reason),
    };
    let at: usize = if index < 0 {
        0
    } else {
        index as usize
    };
    let preset = if at < presets.len() {
        presets[at]
    } else {
        presets[0]
    };
    let job = TrimJob {
        input: clip.path.clone(),
        output,
        range,
        mode: TrimMode::FrameAccurate,
        video_bitrate_kbps: preset.bitrate_kbps,
        audio_bitrate_kbps: 128,
        scale_height: if clip.height > preset.height {
            Some(preset.height)
        } else {
            None
        },
        keep_audio: kept_tracks(&page.tracks),
        audio_labels: copy_names(&clip.audio_tracks),
    };
    Ok((job, "Compressing, this takes a moment..."))
}

/// Starts an edit on the page. Returns whether it can start, and whether the
/// player is stopped first: a file that is replaced must not be open.
pub fn start_edit(page: &mut PlayerPage, available: bool, overwrite: bool, busy: &str) -> (r: (
    bool,
    bool,
))
    ensures
        r.0 == available,
        r.1 == (available && overwrite),
        final(page).trim_busy == (available || old(page).trim_busy),
        final(page).trim_message@ == if available {
            busy@
        } else {
            "Editing is unavailable on this system."@
        },
        *final(page) == (PlayerPage {
            trim_busy: final(page).trim_busy,
            trim_message: final(page).trim_message,
            ..*old(page)
        }),
{
    if !available {
        page.trim_message = "Editing is unavailable on this system.".to_owned();
        return (false, false);
    }
    page.trim_busy = true;
    page.trim_message = busy.to_owned();
    (true, overwrite)
}

/// Takes over that the worker of an edit could not start.
pub fn edit_not_started(page: &mut PlayerPage, reason: &str)
    ensures
        !final(page).trim_busy,
        final(page).trim_message@ == "Could not start the edit: "@ + reason@,
        *final(page) == (PlayerPage {
            trim_busy: false,
            trim_message: final(page).trim_message,
            ..*old(page)
        }),
{
    page.trim_busy = false;
    page.trim_message = join2("Could not start the edit: ", reason);
}

/// The outcome of an edit. `replaced` says how putting the new file in the
/// place of the original went, where that was asked for and there was one.
pub fn edit_result(
    cut: Result<ClipFile, String>,
    replaced: Option<Result<(), String>>,
) -> (r: Result<ClipFile, String>)
    ensures
        match (cut, replaced) {
            (Ok(_), Some(Err(reason))) => r matches Err(text) && text@
                == "could not replace the original: "@ + reason@,
            _ => r == cut,
        },
{
    match (cut, replaced) {
        (Ok(_), Some(Err(reason))) => Err(
            join2("could not replace the original: ", reason.as_str()),
        ),
        (cut, _) => cut,
    }
}

/// Takes over what is said of an edit that is over.
pub fn edit_finished(page: &mut PlayerPage, message: String)
    ensures
        *final(page) == (PlayerPage { trim_busy: false, trim_message: message, ..*old(page) }),
{
    page.trim_busy = false;
    page.trim_message = message;
}

/// A clip as it was opened has nothing to save: what is selected is all of it,
/// and no track is dropped.
pub proof fn an_opened_clip_has_nothing_to_save(page: PlayerPage, clip: ClipRecord, shown: u64)
    requires
        all_on(page.tracks@, clip.audio_tracks@),
        page.selection.start == 0,
        page.selection.end == clip.duration_ms,
        clip.duration_ms > 0,
    ensures
        page.selection.start == 0 && page.selection.end == edit_duration(clip, shown),
        !kept(page.tracks@).contains(false),
{
    let keep = kept(page.tracks@);
    assert forall|i: int| 0 <= i < keep.len() implies keep[i] by {
        assert(page.tracks@[i].enabled);
    }
}

/// Skipping there and back comes back, unless an end of the clip was in the
/// way.
pub proof fn a_skip_can_be_undone(position: u64, delta: i64, duration: u64)
    requires
        position <= duration,
        i64::MIN < delta,
        0 <= position + delta <= duration,
    ensures
        skipped(skipped(position, delta, duration) as u64, (-delta) as i64, duration) == position,
{
}

/// A position is written in minutes, seconds and thousandths.
pub proof fn a_position_is_written_in_parts(ms: u64, m: nat, s: nat, f: nat)
    requires
        ms == m * 60_000 + s * 1000 + f,
        s < 60,
        f < 1000,
    ensures
        precise(ms) == crate::text::dec(m) + ":"@ + crate::text::zero_padded(
            crate::text::dec(s),
            2,
        ) + "."@ + crate::text::zero_padded(crate::text::dec(f), 3),
{
}

/// The summary of a selection tells how long it is; one that ends before it starts
/// is empty.
pub proof fn a_selection_tells_its_length(selection: Selection, length: u64)
    requires
        selection.is_told(),
    ensures
        selection.end == selection.start + length ==> selection.summary@ == "Selection: "@
            + precise(length),
        selection.end <= selection.start ==> selection.summary@ == "Selection: "@ + precise(0),
        selection.start_text@ == precise(selection.start),
        selection.end_text@ == precise(selection.end),
{
}

} // verus!
