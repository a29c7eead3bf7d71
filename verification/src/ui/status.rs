//! The status that the window and the tray show.
use vstd::prelude::*;

use super::events::StatusTexts;
use super::format_whole_megabytes;
use crate::config::DiscordConfig;
use crate::discord::PresenceState;
use crate::engine::{BufferState, EngineStatus, RecordingState};
use crate::i18n::{tr, tr_with, Translator};
use crate::library::format_duration;
use crate::numbers::round_ratio;
use crate::text::{decimal, join2, join3, replace, same};

verus! {

/// What is shown where no game runs.
pub open spec fn no_game() -> Seq<char> {
    "No game detected"@
}

/// What the buffer is doing, in words.
pub open spec fn buffer_state_text(t: Translator, state: BufferState) -> Seq<char> {
    match state {
        BufferState::Stopped => t.says("Stopped"@),
        BufferState::Starting => t.says("Starting..."@),
        BufferState::Running => t.says("Recording into memory"@),
        BufferState::Failed(_) => t.says("Failed"@),
    }
}

/// What the buffer is doing, in words.
pub fn describe_buffer_state(t: &Translator, state: &BufferState) -> (r: String)
    ensures
        r@ == buffer_state_text(*t, *state),
{
    match state {
        BufferState::Stopped => tr(t, "Stopped"),
        BufferState::Starting => tr(t, "Starting..."),
        BufferState::Running => tr(t, "Recording into memory"),
        BufferState::Failed(_) => tr(t, "Failed"),
    }
}

/// The seconds that are buffered, no more than the buffer is long.
pub open spec fn available(status: EngineStatus) -> nat {
    let limit = status.replay_length * 1_000_000_000;
    let held = if status.report.stats.duration < limit {
        status.report.stats.duration as int
    } else {
        limit
    };
    crate::numbers::nearest(held as nat, 1_000_000_000)
}

/// The picture size and rate, in words.
pub open spec fn resolution_text(status: EngineStatus) -> Seq<char> {
    match status.report.stream {
        Some(s) => ", "@ + crate::text::dec(s.width as nat) + "x"@ + crate::text::dec(
            s.height as nat,
        ) + " @ "@ + crate::text::dec(
            (s.fps_numerator / (if s.fps_denominator < 1 {
                1
            } else {
                s.fps_denominator
            })) as nat,
        ) + " fps"@,
        None => ""@,
    }
}

/// The number of audio tracks, in words.
pub open spec fn tracks_text(t: Translator, n: usize) -> Seq<char> {
    if n == 0 {
        Seq::empty()
    } else if n == 1 {
        t.says(", 1 audio track"@)
    } else {
        crate::text::replaced(t.says(", {n} audio tracks"@), "{n}"@, crate::text::dec(n as nat))
    }
}

/// What the buffer holds, in words.
pub open spec fn buffer_text(t: Translator, status: EngineStatus) -> Seq<char> {
    crate::text::replaced(
        crate::text::replaced(
            crate::text::replaced(
                crate::text::replaced(
                    crate::text::replaced(
                        t.says(
                            "{available} of {total} s buffered, {mb} MB in memory{resolution}{audio}"@,
                        ),
                        "{available}"@,
                        crate::text::dec(available(status)),
                    ),
                    "{total}"@,
                    crate::text::dec(status.replay_length as nat),
                ),
                "{mb}"@,
                super::whole_megabytes(status.report.stats.bytes),
            ),
            "{resolution}"@,
            resolution_text(status),
        ),
        "{audio}"@,
        tracks_text(t, status.report.audio_tracks),
    )
}

fn describe_resolution(status: &EngineStatus) -> (r: String)
    ensures
        r@ == resolution_text(*status),
{
    match &status.report.stream {
        Some(s) => {
            let rate: u32 = s.fps_numerator / (if s.fps_denominator < 1 {
                1
            } else {
                s.fps_denominator
            });
            let mut text = join2(", ", decimal(s.width as u64).as_str());
            text.append("x");
            text.append(decimal(s.height as u64).as_str());
            text.append(" @ ");
            text.append(decimal(rate as u64).as_str());
            text.append(" fps");
            text
        },
        None => "".to_owned(),
    }
}

fn describe_tracks(t: &Translator, n: usize) -> (r: String)
    ensures
        r@ == tracks_text(*t, n),
{
    if n == 0 {
        String::new()
    } else if n == 1 {
        tr(t, ", 1 audio track")
    } else {
        proof {
            reveal_strlit("{n}");
        }
        tr_with(t, ", {n} audio tracks", "{n}", decimal(n as u64).as_str())
    }
}

/// What the buffer holds, in words.
pub fn describe_buffer(t: &Translator, status: &EngineStatus) -> (r: String)
    ensures
        r@ == buffer_text(*t, *status),
{
    proof {
        reveal_strlit("{available}");
        reveal_strlit("{total}");
        reveal_strlit("{mb}");
        reveal_strlit("{resolution}");
        reveal_strlit("{audio}");
    }
    let limit: u64 = status.replay_length as u64 * 1_000_000_000;
    let held: u64 = if status.report.stats.duration < limit {
        status.report.stats.duration
    } else {
        limit
    };
    let seconds = decimal(round_ratio(held, 1_000_000_000));
    let s = tr(
        t,
        "{available} of {total} s buffered, {mb} MB in memory{resolution}{audio}",
    );
    let s = replace(s.as_str(), "{available}", seconds.as_str());
    let s = replace(s.as_str(), "{total}", decimal(status.replay_length as u64).as_str());
    let s = replace(
        s.as_str(),
        "{mb}",
        format_whole_megabytes(status.report.stats.bytes).as_str(),
    );
    let s = replace(s.as_str(), "{resolution}", describe_resolution(status).as_str());
    replace(s.as_str(), "{audio}", describe_tracks(t, status.report.audio_tracks).as_str())
}

/// What the recording is doing, in words.
pub open spec fn recording_text(t: Translator, state: RecordingState) -> Seq<char> {
    match state {
        RecordingState::Idle => t.says("Not recording"@),
        RecordingState::Starting => t.says("Starting..."@),
        RecordingState::Active { path, duration } => crate::text::replaced(
            crate::text::replaced(
                t.says("Recording {name} ({duration})"@),
                "{name}"@,
                path.name@,
            ),
            "{duration}"@,
            crate::library::duration_text((duration / 1_000_000_000) as nat),
        ),
        RecordingState::Finishing => t.says("Finishing file..."@),
        RecordingState::Failed(_) => t.says("Failed"@),
    }
}

/// What the recording is doing, in words.
pub fn describe_recording(t: &Translator, state: &RecordingState) -> (r: String)
    ensures
        r@ == recording_text(*t, *state),
{
    match state {
        RecordingState::Idle => tr(t, "Not recording"),
        RecordingState::Starting => tr(t, "Starting..."),
        RecordingState::Active { path, duration } => {
            proof {
                reveal_strlit("{name}");
                reveal_strlit("{duration}");
            }
            let s = tr_with(t, "Recording {name} ({duration})", "{name}", path.name.as_str());
            replace(
                s.as_str(),
                "{duration}",
                format_duration(*duration / 1_000_000_000).as_str(),
            )
        },
        RecordingState::Finishing => tr(t, "Finishing file..."),
        RecordingState::Failed(_) => tr(t, "Failed"),
    }
}

/// What the window says of the capture. `error` is missing where the one that
/// is shown stays.
#[derive(Debug)]
pub struct StatusPage {
    pub buffer_label: String,
    pub buffer_status: String,
    pub buffer_detail: String,
    pub encoder_name: String,
    pub error: Option<String>,
    pub notice: String,
    pub recording_status: String,
    /// The texts of the window are shown again.
    pub show_texts: bool,
}

/// The status as everything that shows it needs it.
#[derive(Debug)]
pub struct StatusView {
    pub buffer_active: bool,
    pub recording_active: bool,
    pub presence: PresenceState,
    /// What the window shows; where there is no engine, that it is
    /// unavailable.
    pub page: Result<StatusPage, String>,
}

/// Whether a recording runs.
pub open spec fn is_recording(state: RecordingState) -> bool {
    state is Starting || state is Active
}

/// What is said of black frames.
pub open spec fn blank_text() -> Seq<char> {
    "The capture looks black. If the game runs in exclusive fullscreen, switch it to borderless windowed, or choose Windows Graphics Capture under Settings."@
}

/// What the window notes about the capture.
pub open spec fn notice_text(t: Translator, notice: Option<String>, blank: bool) -> Seq<char> {
    let own = match notice {
        Some(text) => text@,
        None => Seq::empty(),
    };
    if !blank {
        own
    } else if own.len() > 0 {
        own + " "@ + t.says(blank_text())
    } else {
        t.says(blank_text())
    }
}

fn describe_notice(t: &Translator, notice: &Option<String>, blank: bool) -> (r: String)
    ensures
        r@ == notice_text(*t, *notice, blank),
{
    let own = match notice {
        Some(text) => text.clone(),
        None => String::new(),
    };
    if !blank {
        return own;
    }
    let warning = tr(
        t,
        "The capture looks black. If the game runs in exclusive fullscreen, switch it to borderless windowed, or choose Windows Graphics Capture under Settings.",
    );
    if own.as_str().unicode_len() > 0 {
        join3(own.as_str(), " ", warning.as_str())
    } else {
        warning
    }
}

/// The game that the presence names.
pub open spec fn presence_game(game: Seq<char>) -> Option<Seq<char>> {
    if game != no_game() && game.len() > 0 {
        Some(game)
    } else {
        None
    }
}

/// Whether the window shows this status.
pub open spec fn page_shows(
    page: StatusPage,
    t: Translator,
    status: EngineStatus,
) -> bool {
    &&& page.buffer_label@ == t.says(
        if status.buffer is Running {
            "Buffer on"@
        } else {
            "Buffer off"@
        },
    )
    &&& page.buffer_status@ == buffer_state_text(t, status.buffer)
    &&& page.buffer_detail@ == buffer_text(t, status)
    &&& page.encoder_name@ == status.encoder.kind.name() + " ("@ + status.backend@ + ")"@
    &&& match status.buffer {
        BufferState::Failed(reason) => page.error is Some && page.error->0@ == reason@,
        _ => page.error is None,
    }
    &&& page.notice@ == notice_text(t, status.notice, status.blank)
    &&& page.recording_status@ == recording_text(t, status.recording)
    &&& page.show_texts == (status.recording is Failed)
}

fn status_page(t: &Translator, status: &EngineStatus) -> (r: StatusPage)
    ensures
        page_shows(r, *t, *status),
{
    let running = match &status.buffer {
        BufferState::Running => true,
        _ => false,
    };
    let failed = match &status.recording {
        RecordingState::Failed(_) => true,
        _ => false,
    };
    let mut encoder_name = join3(status.encoder.kind.label(), " (", status.backend);
    encoder_name.append(")");
    StatusPage {
        buffer_label: if running {
            tr(t, "Buffer on")
        } else {
            tr(t, "Buffer off")
        },
        buffer_status: describe_buffer_state(t, &status.buffer),
        buffer_detail: describe_buffer(t, status),
        encoder_name,
        error: match &status.buffer {
            BufferState::Failed(reason) => Some(reason.clone()),
            _ => None,
        },
        notice: describe_notice(t, &status.notice, status.blank),
        recording_status: describe_recording(t, &status.recording),
        show_texts: failed,
    }
}

/// What is shown of the engine's status, and what the texts become. `game` is
/// the name of the game that runs.
pub fn refresh_status(
    t: &Translator,
    status: Option<&EngineStatus>,
    game: &str,
    discord: &DiscordConfig,
    texts: &mut StatusTexts,
) -> (r: StatusView)
    ensures
        match status {
            None => {
                &&& !r.buffer_active && !r.recording_active
                &&& r.presence.is_idle() && !r.presence.is_wanted()
                &&& r.page matches Err(text) && text@ == t.says("Unavailable"@)
                &&& final(texts)@ == old(texts)@
            },
            Some(s) => {
                &&& r.buffer_active == (s.buffer is Running)
                &&& r.recording_active == is_recording(s.recording)
                &&& r.presence.config == *discord
                &&& crate::engine::model::text_view(r.presence.game) == presence_game(game@)
                &&& r.presence.buffering == r.buffer_active
                &&& r.presence.recording == r.recording_active
                &&& r.page matches Ok(page) && page_shows(page, *t, *s)
                &&& final(texts)@ == match s.recording {
                    RecordingState::Failed(reason) => super::events::TextsView {
                        recording_message: super::events::failure(
                            *t,
                            "Recording failed: {error}"@,
                            reason@,
                        ),
                        ..old(texts)@
                    },
                    _ => old(texts)@,
                }
            },
        },
{
    let status = match status {
        Some(status) => status,
        None => return StatusView {
            buffer_active: false,
            recording_active: false,
            presence: PresenceState::default(),
            page: Err(tr(t, "Unavailable")),
        },
    };
    let buffer_active = match &status.buffer {
        BufferState::Running => true,
        _ => false,
    };
    let recording_active = match &status.recording {
        RecordingState::Starting => true,
        RecordingState::Active { .. } => true,
        _ => false,
    };
    if let RecordingState::Failed(reason) = &status.recording {
        proof {
            reveal_strlit("{error}");
        }
        texts.recording_message = tr_with(
            t,
            "Recording failed: {error}",
            "{error}",
            reason.as_str(),
        );
    }
    let named = !same(game, "No game detected") && game.unicode_len() > 0;
    let presence = PresenceState {
        config: discord.clone(),
        game: if named {
            Some(game.to_owned())
        } else {
            None
        },
        buffering: buffer_active,
        recording: recording_active,
    };
    StatusView {
        buffer_active,
        recording_active,
        presence,
        page: Ok(status_page(t, status)),
    }
}

/// The name of the game as the top bar shows it: only the placeholder is
/// translated, real game names are not.
pub fn shown_game(t: &Translator, game: &str) -> (r: String)
    ensures
        r@ == if game@ == no_game() {
            t.says(no_game())
        } else {
            game@
        },
{
    if same(game, "No game detected") {
        tr(t, game)
    } else {
        game.to_owned()
    }
}

/// One audio track is told apart from several, and none is not told.
pub proof fn audio_tracks_are_counted(t: Translator, n: usize)
    ensures
        tracks_text(t, 0).len() == 0,
        tracks_text(t, 1) == t.says(", 1 audio track"@),
        n > 1 ==> tracks_text(t, n) == crate::text::replaced(
            t.says(", {n} audio tracks"@),
            "{n}"@,
            crate::text::dec(n as nat),
        ),
{
}

/// Each state of the buffer and of a recording has its own words.
pub proof fn states_have_their_words(t: Translator, reason: String)
    ensures
        buffer_state_text(t, BufferState::Stopped) == t.says("Stopped"@),
        buffer_state_text(t, BufferState::Starting) == t.says("Starting..."@),
        buffer_state_text(t, BufferState::Running) == t.says("Recording into memory"@),
        buffer_state_text(t, BufferState::Failed(reason)) == t.says("Failed"@),
        recording_text(t, RecordingState::Idle) == t.says("Not recording"@),
        recording_text(t, RecordingState::Starting) == t.says("Starting..."@),
        recording_text(t, RecordingState::Finishing) == t.says("Finishing file..."@),
        recording_text(t, RecordingState::Failed(reason)) == t.says("Failed"@),
{
}

} // verus!
