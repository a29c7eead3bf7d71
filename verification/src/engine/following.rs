//! How a capture session follows what changes around it: the running games, the
//! settings, the applications with a track of their own, the displays, and the
//! failures of the capture itself.
use vstd::prelude::*;

use super::capture::{live_sources, AudioSourceSettings};
use super::model::{Command, ConfigChanges, DriveView, EngineView, Session, Setup, StopView, Wishes};
use super::outcomes::{asked_display, is_connected, is_up, needs_frames, restarts_anew,
    restarting_restarts_anew, starting_starts_anew, starts_anew};
use crate::config::{AudioDeviceKind, AudioSourceConfig, AutoCapture, CaptureMethod, Config,
    DetectedGame, EncoderInfo, GameProfile, MonitorInfo, RunningProcess};
use crate::error::CaptureError;
use crate::sink::{CaptureSink, FilePath, SinkRecording};

verus! {

/// What the profile of the active game leaves open is taken from the settings,
/// and what it says wins.
pub proof fn a_profile_overrides_the_settings(setup: Setup, game: DetectedGame, profile: GameProfile)
    requires
        setup.active_game == Some(game),
        game.profile == Some(profile),
    ensures
        setup.replay_seconds() == (match profile.replay_length_seconds {
            Some(seconds) => seconds,
            None => setup.config.replay.length_seconds,
        }),
        setup.display() == (match profile.display {
            Some(display) => display,
            None => setup.config.capture.display,
        }),
        setup.method() == (match profile.capture_method {
            Some(method) => method,
            None => setup.config.capture.method,
        }),
        match profile.subfolder {
            Some(sub) => setup.subfolder() == if crate::text::trimmed(sub@).len() > 0 {
                Some(crate::text::trimmed(sub@))
            } else {
                None
            },
            None => setup.subfolder() is None,
        },
        setup.game() == game.name@,
{
}

/// Without a game, or with one that has no profile, the settings hold.
pub proof fn without_a_profile_the_settings_hold(setup: Setup)
    requires
        setup.active_game matches Some(game) ==> game.profile is None,
    ensures
        setup.replay_seconds() == setup.config.replay.length_seconds,
        setup.display() == setup.config.capture.display,
        setup.method() == setup.config.capture.method,
        setup.subfolder() is None,
{
}

/// The active game is hooked when game capture is chosen, possible and has not
/// failed; the display is captured otherwise.
pub proof fn a_game_is_hooked_when_that_is_chosen_and_possible(setup: Setup, failed: bool, pid: u32)
    ensures
        setup.game_pid(failed) == Some(pid) <==> !failed && setup.game_capture && setup.method()
            == CaptureMethod::Game && (setup.active_game matches Some(game) && game.pid == pid),
{
}

proof fn ensuring_brings_capture_up(s: Session)
    requires
        s.e.drive.generation < u64::MAX,
    ensures
        is_up(s.ensured().e.drive),
        s.ensured().e == s.e.driving(s.ensured().e.drive),
        s.ensured().s == (CaptureSink { failure: s.ensured().s.failure, ..s.s }),
        s.ensured().e.drive.generation <= s.e.drive.generation + 1,
        s.e.drive.starting is Some || s.e.drive.running && s.s.failure is None ==> s.ensured() == s,
        !(s.e.drive.starting is Some || s.e.drive.running && s.s.failure is None) ==> starts_anew(
            s.e.drive,
            s.ensured().e.drive,
            s.e.setup,
        ),
        s.e.drive.commands.is_prefix_of(s.ensured().e.drive.commands),
{
    reveal(Session::ensured);
    reveal(Session::started);
    let down = s.e.drive.stopped();
    starting_starts_anew(down, s.e.setup);
    let after = down.started(s.e.setup);
    assert(s.e.drive.commands.is_prefix_of(after.commands)) by {
        assert(after.commands.take(down.commands.len() as int) =~= down.commands);
        assert(after.commands.take(s.e.drive.commands.len() as int) =~= s.e.drive.commands);
    }
    assert(s.e.drive.commands.is_prefix_of(s.e.drive.commands));
}

proof fn following_keeps_what_is_wanted(s: Session, active: Option<DetectedGame>)
    requires
        s.e.drive.generation < u64::MAX,
    ensures
        ({
            let after = s.game_followed(active);
            &&& after.e.wishes == s.e.wishes
            &&& after.e.setup == (Setup { active_game: active, ..s.e.setup })
            &&& after.s == (CaptureSink { failure: after.s.failure, ..s.s })
            &&& needs_frames(s.e.wishes) ==> is_up(s.e.drive) == is_up(after.e.drive)
            &&& after.e.drive.generation <= s.e.drive.generation + 1
            &&& after.e.restart_pending == s.e.restart_pending
            &&& after.e.finishing == s.e.finishing
            &&& s.s.failure is None ==> after.s.failure is None
        }),
{
    reveal(Session::game_followed);
    reveal(Session::game_changed);
    reveal(Session::restarted);
    reveal(DriveView::restarted);
    let setup = Setup { active_game: active, ..s.e.setup };
    let d = DriveView {
        game_capture_unavailable: false,
        commands: s.e.drive.commands.push(setup.limits()),
        ..s.e.drive
    };
    restarting_restarts_anew(d, setup);
}

proof fn buffering_for_a_game(s: Session, want: bool)
    requires
        s.e.drive.generation < u64::MAX,
    ensures
        ({
            let after = s.auto_buffered(want);
            &&& after.e.wishes == (Wishes { auto_buffer: want, ..s.e.wishes })
            &&& after.e.setup == s.e.setup
            &&& after.s.recording == s.s.recording
            &&& after.e.drive.generation <= s.e.drive.generation + 1
            &&& after.e.restart_pending == s.e.restart_pending
            &&& after.e.finishing == s.e.finishing
            &&& want == s.e.wishes.auto_buffer ==> after == s
            &&& want && !s.e.wishes.auto_buffer ==> is_up(after.e.drive) && after.s.buffer_enabled
            &&& !want && s.e.wishes.auto_buffer ==> {
                &&& after.s.buffer_enabled == s.e.wishes.buffer
                &&& s.e.wishes.buffer ==> after.e.drive == s.e.drive
                &&& !s.e.wishes.buffer ==> after.e.drive.commands.len()
                    > s.e.drive.commands.len()
                    && after.e.drive.commands[s.e.drive.commands.len() as int]
                    == Command::ClearBuffer
                &&& !s.e.wishes.buffer && s.e.wishes.recording ==> after.e.drive.running
                    == s.e.drive.running && after.e.drive.starting == s.e.drive.starting
                &&& !s.e.wishes.buffer && !s.e.wishes.recording ==> !is_up(after.e.drive)
                    && after.e.drive.commands.last() == Command::StopBackend
            }
        }),
{
    reveal(Session::auto_buffered);
    ensuring_brings_capture_up(
        Session {
            e: EngineView { wishes: Wishes { auto_buffer: want, ..s.e.wishes }, ..s.e },
            s: CaptureSink { buffer_enabled: s.e.wishes.buffer || want, ..s.s },
        },
    );
}

proof fn recording_for_a_game(s: Session, want: bool, path: FilePath)
    requires
        s.e.drive.generation < u64::MAX,
    ensures
        ({
            let after = s.auto_recorded(want, path);
            &&& after.e.wishes.buffer == s.e.wishes.buffer
            &&& after.e.wishes.auto_buffer == s.e.wishes.auto_buffer
            &&& after.s.buffer_enabled == s.s.buffer_enabled
            &&& after.e.setup == s.e.setup
            &&& want && !s.e.wishes.recording ==> after.e.wishes.recording
                && after.e.wishes.auto_recording && after.s.recording == SinkRecording::Pending(path)
                && is_up(after.e.drive)
            &&& want && s.e.wishes.recording ==> after == s
            &&& !want && !(s.e.wishes.recording && s.e.wishes.auto_recording) ==> after == s
            &&& !want && s.e.wishes.recording && s.e.wishes.auto_recording ==> {
                &&& !after.e.wishes.recording && !after.e.wishes.auto_recording
                &&& after.s.recording is Idle
                &&& s.e.wishes.buffer || s.e.wishes.auto_buffer ==> (is_up(s.e.drive)
                    && !s.e.restart_pending ==> after.e.drive == s.e.drive)
                &&& !(s.e.wishes.buffer || s.e.wishes.auto_buffer) ==> !is_up(after.e.drive)
            }
        }),
{
    reveal(Session::auto_recorded);
    reveal(Session::recording_started);
    ensuring_brings_capture_up(s.wishing(Wishes { auto_recording: true, ..s.e.wishes }));
    super::outcomes::a_stopped_recording_is_accounted_for(s);
    reveal(Session::recording_stopped);
    reveal(Session::recording_ended);
}

/// A game with a recording profile is recorded: after the watcher asked for it a
/// recording is wanted and capture runs or is on its way up. Where none was
/// wanted before, it is the watcher's and goes to the given file; one that was
/// wanted goes on untouched. The user's buffer is left alone.
pub proof fn a_game_is_recorded(
    s: Session,
    active: Option<DetectedGame>,
    path: FilePath,
)
    requires
        s.e.drive.generation <= u64::MAX - 3,
    ensures
        ({
            let after = s.game_set(active, AutoCapture::Recording, path);
            &&& after.e.wishes.recording
            &&& !s.e.wishes.recording || is_up(s.e.drive) ==> is_up(after.e.drive)
            &&& !s.e.wishes.recording ==> after.e.wishes.auto_recording && after.s.recording
                == SinkRecording::Pending(path)
            &&& s.e.wishes.recording ==> after.e.wishes.auto_recording
                == s.e.wishes.auto_recording && after.s.recording == s.s.recording
            &&& after.e.wishes.buffer == s.e.wishes.buffer
            &&& !after.e.wishes.auto_buffer
            &&& after.e.setup == (Setup { active_game: active, ..s.e.setup })
        }),
{
    following_keeps_what_is_wanted(s, active);
    let followed = s.game_followed(active);
    buffering_for_a_game(followed, false);
    recording_for_a_game(followed.auto_buffered(false), true, path);
}

/// A game with a buffer profile is buffered: the buffer takes frames for the
/// watcher, and capture is up. No recording of the watcher's is left; one of the
/// user's goes on.
pub proof fn a_game_is_buffered(
    s: Session,
    active: Option<DetectedGame>,
    path: FilePath,
)
    requires
        s.e.drive.generation <= u64::MAX - 3,
        s.consistent(),
    ensures
        ({
            let after = s.game_set(active, AutoCapture::Buffer, path);
            &&& after.e.wishes.auto_buffer
            &&& after.s.buffer_enabled
            &&& !s.e.wishes.auto_buffer || is_up(s.e.drive) ==> is_up(after.e.drive)
            &&& after.e.wishes.buffer == s.e.wishes.buffer
            &&& !after.e.wishes.auto_recording
            &&& after.e.wishes.recording == (s.e.wishes.recording && !s.e.wishes.auto_recording)
            &&& after.e.wishes.recording ==> after.s.recording == s.s.recording
            &&& after.e.setup == (Setup { active_game: active, ..s.e.setup })
        }),
{
    following_keeps_what_is_wanted(s, active);
    let followed = s.game_followed(active);
    buffering_for_a_game(followed, true);
    let buffered = followed.auto_buffered(true);
    recording_for_a_game(buffered, false, path);
    super::outcomes::a_stopped_recording_is_accounted_for(buffered);
    reveal(Session::auto_recorded);
}

/// Once no game asks for anything, nothing of the watcher's is left: neither
/// buffer nor recording. What the user wants goes on; where that is nothing,
/// capture stops.
pub proof fn nothing_is_left_of_a_game(
    s: Session,
    active: Option<DetectedGame>,
    path: FilePath,
)
    requires
        s.e.drive.generation <= u64::MAX - 3,
        s.consistent(),
    ensures
        ({
            let after = s.game_set(active, AutoCapture::Nothing, path);
            &&& !after.e.wishes.auto_buffer
            &&& !after.e.wishes.auto_recording
            &&& after.e.wishes.buffer == s.e.wishes.buffer
            &&& after.e.wishes.recording == (s.e.wishes.recording && !s.e.wishes.auto_recording)
            &&& after.e.wishes.recording ==> after.s.recording == s.s.recording
            &&& !after.e.wishes.recording ==> after.s.recording is Idle
            &&& after.s.buffer_enabled == s.e.wishes.buffer
            &&& needs_frames(s.e.wishes) && !needs_frames(after.e.wishes) ==> !is_up(after.e.drive)
            &&& s.e.wishes.buffer && is_up(s.e.drive) && !s.e.restart_pending ==> is_up(
                after.e.drive,
            )
            &&& after.e.setup == (Setup { active_game: active, ..s.e.setup })
        }),
{
    following_keeps_what_is_wanted(s, active);
    let followed = s.game_followed(active);
    buffering_for_a_game(followed, false);
    let buffered = followed.auto_buffered(false);
    recording_for_a_game(buffered, false, path);
    reveal(Session::auto_recorded);
}

/// While the same game runs and asks for what it already has, nothing happens.
pub proof fn a_game_that_stays_changes_nothing(
    s: Session,
    game: DetectedGame,
    again: DetectedGame,
    auto: AutoCapture,
    path: FilePath,
)
    requires
        s.e.setup.active_game == Some(game),
        again.exe@ == game.exe@,
        s.e.wishes.auto_buffer == (auto == AutoCapture::Buffer),
        s.e.wishes.recording == (auto == AutoCapture::Recording),
        s.e.wishes.auto_recording ==> s.e.wishes.recording,
    ensures
        s.game_set(Some(again), auto, path).e.drive == s.e.drive,
        s.game_set(Some(again), auto, path).s == s.s,
        s.game_set(Some(again), auto, path).e.wishes == s.e.wishes,
        s.game_set(Some(again), auto, path).e.setup.active_game == Some(again),
{
    reveal(Session::game_followed);
    reveal(Session::auto_buffered);
    reveal(Session::auto_recorded);
}

/// Another game brings its own buffer length and a fresh attempt at game
/// capture. The capture is restarted for it when it is on another display or
/// hooks another process, and otherwise left alone; a recording is never cut.
pub proof fn another_game_takes_over(s: Session, active: Option<DetectedGame>)
    requires
        s.e.drive.generation < u64::MAX,
        match (active, s.e.setup.active_game) {
            (Some(a), Some(b)) => a.exe@ != b.exe@,
            (None, None) => false,
            _ => true,
        },
        needs_frames(s.e.wishes),
        is_up(s.e.drive),
    ensures
        ({
            let setup = Setup { active_game: active, ..s.e.setup };
            let after = s.game_followed(active);
            let moves = asked_display(setup)@ != asked_display(s.e.setup)@ || setup.game_pid(false)
                != s.e.setup.game_pid(s.e.drive.game_capture_unavailable);
            &&& after.e.setup == setup
            &&& !after.e.drive.game_capture_unavailable
            &&& after.e.drive.commands.len() > s.e.drive.commands.len()
            &&& after.e.drive.commands[s.e.drive.commands.len() as int] == (Command::SetLimits {
                max_seconds: setup.replay_seconds(),
                memory_cap_mb: setup.config.replay.memory_cap_mb,
            })
            &&& moves && !s.e.wishes.recording ==> restarts_anew(
                s.e.drive,
                after.e.drive,
                setup,
            )
            &&& !moves || s.e.wishes.recording ==> {
                &&& after.e.drive.starting == s.e.drive.starting
                &&& after.e.drive.running == s.e.drive.running
                &&& after.e.drive.generation == s.e.drive.generation
                &&& after.e.drive.commands.len() == s.e.drive.commands.len() + 1
            }
        }),
{
    reveal(Session::game_followed);
    reveal(Session::game_changed);
    reveal(Session::restarted);
    let setup = Setup { active_game: active, ..s.e.setup };
    let d = DriveView {
        game_capture_unavailable: false,
        commands: s.e.drive.commands.push(setup.limits()),
        ..s.e.drive
    };
    restarting_restarts_anew(d, setup);
    let after = d.restarted(setup, true);
    assert(after.commands.take(d.commands.len() as int) =~= d.commands);
    assert(after.commands[s.e.drive.commands.len() as int] == d.commands.last());
    assert(after.commands.take(s.e.drive.commands.len() as int) =~= s.e.drive.commands);
}

/// The outcome of a game that ended names the file of its recording.
pub proof fn the_watchers_recording_is_accounted_for(s: Session, active: Option<DetectedGame>)
    requires
        s.e.drive.generation <= u64::MAX - 3,
        s.e.wishes.recording,
        s.e.wishes.auto_recording,
    ensures
        s.s.recording matches SinkRecording::Active { path, .. } ==> s.game_followed(
            active,
        ).auto_buffered(false).stop_outcome() == StopView::Finish(path),
{
    following_keeps_what_is_wanted(s, active);
    buffering_for_a_game(s.game_followed(active), false);
}

/// New settings are taken over whatever they change: the configuration, the
/// chosen encoder where the choice differs, and the limits of the buffer where
/// they changed.
pub proof fn new_settings_are_in_force(
    s: Session,
    next: Config,
    changes: ConfigChanges,
    chosen: Option<EncoderInfo>,
)
    requires
        s.e.drive.generation < u64::MAX,
    ensures
        ({
            let after = s.configured(next, changes, chosen);
            &&& after.e.setup.config == next
            &&& after.e.setup.preferred == if s.e.setup.config.capture.encoder
                != next.capture.encoder && chosen is Some {
                chosen->0
            } else {
                s.e.setup.preferred
            }
            &&& after.e.setup.active_game == s.e.setup.active_game
            &&& after.e.setup.monitors == s.e.setup.monitors
            &&& after.e.setup.encoders == s.e.setup.encoders
            &&& after.e.wishes == s.e.wishes
            &&& after.s.recording == s.s.recording
            &&& after.s.buffer_enabled == s.s.buffer_enabled
            &&& changes.replay_limits ==> after.e.drive.commands.len()
                > s.e.drive.commands.len()
                && after.e.drive.commands[s.e.drive.commands.len() as int] == (Command::SetLimits {
                max_seconds: after.e.setup.replay_seconds(),
                memory_cap_mb: next.replay.memory_cap_mb,
            })
        }),
{
    let with = s.reconfigured(next, changes, chosen);
    let d = DriveView {
        unavailable_audio: Set::empty(),
        game_capture_unavailable: false,
        ..with.e.drive
    };
    reveal(Session::restarted);
    reveal(DriveView::restarted);
    restarting_restarts_anew(d, with.e.setup);
    let after = d.restarted(with.e.setup, true);
    assert(after.commands.take(d.commands.len() as int) =~= d.commands);
    if changes.replay_limits {
        assert(after.commands[s.e.drive.commands.len() as int] == d.commands.last());
    }
}

/// Settings of the pipeline reach a running capture through a restart with the
/// new settings; a device or a game hook that had failed gets another chance.
pub proof fn new_pipeline_settings_restart_the_capture(
    s: Session,
    next: Config,
    changes: ConfigChanges,
    chosen: Option<EncoderInfo>,
)
    requires
        s.e.drive.generation < u64::MAX,
        changes.capture_restart,
        is_up(s.e.drive),
        needs_frames(s.e.wishes),
        !s.e.wishes.recording,
    ensures
        ({
            let after = s.configured(next, changes, chosen);
            &&& restarts_anew(s.e.drive, after.e.drive, after.e.setup)
            &&& after.e.drive.unavailable_audio == Set::<Seq<char>>::empty()
            &&& !after.e.drive.game_capture_unavailable
            &&& after.s.failure is None
            &&& after.e.restart_pending == s.e.restart_pending
        }),
{
    let with = s.reconfigured(next, changes, chosen);
    let d = DriveView {
        unavailable_audio: Set::empty(),
        game_capture_unavailable: false,
        ..with.e.drive
    };
    reveal(Session::restarted);
    restarting_restarts_anew(d, with.e.setup);
    let after = d.restarted(with.e.setup, true);
    assert(after.commands.take(d.commands.len() as int) =~= d.commands);
    assert(after.commands.take(s.e.drive.commands.len() as int) =~= s.e.drive.commands);
    assert(s.e.drive.commands.is_prefix_of(after.commands));
}

/// Without a capture there is nothing to restart: new pipeline settings count at
/// the next start, with every device and hook allowed again.
pub proof fn new_pipeline_settings_wait_for_a_start(
    s: Session,
    next: Config,
    changes: ConfigChanges,
    chosen: Option<EncoderInfo>,
)
    requires
        changes.capture_restart,
        !is_up(s.e.drive),
    ensures
        ({
            let after = s.configured(next, changes, chosen);
            &&& !is_up(after.e.drive)
            &&& after.e.drive.generation == s.e.drive.generation
            &&& after.e.drive.unavailable_audio == Set::<Seq<char>>::empty()
            &&& !after.e.drive.game_capture_unavailable
            &&& after.e.restart_pending == s.e.restart_pending
            &&& after.s == s.s
        }),
{
}

/// Other settings leave the running capture alone. New levels are sent to it,
/// one for each source, in order.
pub proof fn new_levels_are_sent(
    s: Session,
    next: Config,
    changes: ConfigChanges,
    chosen: Option<EncoderInfo>,
)
    requires
        !changes.capture_restart,
    ensures
        ({
            let after = s.configured(next, changes, chosen);
            let sources = next.audio.sources@;
            let n = after.e.drive.commands.len() - sources.len();
            let limits: int = if changes.replay_limits {
                1
            } else {
                0
            };
            &&& after.e.drive.running == s.e.drive.running
            &&& after.e.drive.starting == s.e.drive.starting
            &&& after.e.drive.generation == s.e.drive.generation
            &&& after.e.drive.unavailable_audio == s.e.drive.unavailable_audio
            &&& after.e.restart_pending == s.e.restart_pending
            &&& after.s == s.s
            &&& changes.audio_levels ==> n == s.e.drive.commands.len() + limits
                && forall|i: int|
                0 <= i < sources.len() ==> after.e.drive.commands[n + i]
                    == (Command::SetAudioLevel {
                    kind: (#[trigger] sources[i]).kind,
                    id: sources[i].id,
                    volume: sources[i].volume,
                    muted: sources[i].muted,
                })
            &&& !changes.audio_levels ==> after.e.drive.commands.len()
                == s.e.drive.commands.len() + limits
        }),
{
}

proof fn a_process_is_found_by_its_name(processes: Seq<RunningProcess>, exe: Seq<char>)
    ensures
        ({
            let pid = super::model::pid_of(processes, exe);
            ||| exists|i: int|
                0 <= i < processes.len() && (#[trigger] processes[i]).exe@ == exe
                    && processes[i].pid == pid && forall|k: int|
                    0 <= k < i ==> (#[trigger] processes[k]).exe@ != exe
            ||| pid == 0 && forall|i: int|
                0 <= i < processes.len() ==> (#[trigger] processes[i]).exe@ != exe
        }),
    decreases processes.len(),
{
    if processes.len() > 0 && processes[0].exe@ != exe {
        let rest = processes.drop_first();
        a_process_is_found_by_its_name(rest, exe);
        let pid = super::model::pid_of(processes, exe);
        assert(forall|k: int| 0 < k < processes.len() ==> processes[k] == rest[k - 1]);
        if exists|i: int|
            0 <= i < rest.len() && (#[trigger] rest[i]).exe@ == exe && rest[i].pid == pid && forall|
                k: int,
            |
                0 <= k < i ==> (#[trigger] rest[k]).exe@ != exe {
            let i = choose|i: int|
                0 <= i < rest.len() && (#[trigger] rest[i]).exe@ == exe && rest[i].pid == pid
                    && forall|k: int| 0 <= k < i ==> (#[trigger] rest[k]).exe@ != exe;
            assert(processes[i + 1].exe@ == exe && processes[i + 1].pid == pid);
            assert forall|k: int| 0 <= k < i + 1 implies (#[trigger] processes[k]).exe@ != exe by {
                if k > 0 {
                    assert(rest[k - 1].exe@ != exe);
                }
            }
        } else {
            assert forall|k: int| 0 <= k < processes.len() implies (#[trigger] processes[k]).exe@
                != exe by {
                if k > 0 {
                    assert(rest[k - 1].exe@ != exe);
                }
            }
        }
    }
}

/// Every application with a track of its own is listed with the process that it
/// runs as, or with zero while it does not run.
pub proof fn every_application_is_watched(setup: Setup, k: int)
    requires
        setup.config.audio.enabled,
        0 <= k < setup.config.audio.sources.len(),
        setup.config.audio.sources@[k].enabled,
        setup.config.audio.sources@[k].kind == AudioDeviceKind::Application,
    ensures
        exists|j: int|
            0 <= j < setup.audio_pids().len() && (#[trigger] setup.audio_pids()[j]).0
                == setup.config.audio.sources@[k].id@ && ({
                let exe = crate::text::lowercase(setup.config.audio.sources@[k].id@);
                let pid = setup.audio_pids()[j].1;
                ||| exists|i: int|
                    0 <= i < setup.processes.len() && (#[trigger] setup.processes@[i]).exe@ == exe
                        && setup.processes@[i].pid == pid && forall|m: int|
                        0 <= m < i ==> (#[trigger] setup.processes@[m]).exe@ != exe
                ||| pid == 0 && forall|i: int|
                    0 <= i < setup.processes.len() ==> (#[trigger] setup.processes@[i]).exe@ != exe
            }),
{
    let sources = setup.config.audio.sources@;
    let p = super::model::is_enabled_app();
    let apps = sources.filter(p);
    sources.lemma_filter_contains(p, k);
    let j = choose|j: int| 0 <= j < apps.len() && apps[j] == sources[k];
    assert(setup.audio_pids()[j].0 == sources[k].id@);
    a_process_is_found_by_its_name(setup.processes@, crate::text::lowercase(sources[k].id@));
}

/// Only applications that are switched on are watched, and none while audio is
/// off.
pub proof fn only_applications_are_watched(setup: Setup, j: int)
    requires
        0 <= j < setup.audio_pids().len(),
    ensures
        setup.config.audio.enabled,
        exists|k: int|
            0 <= k < setup.config.audio.sources.len() && (
            #[trigger] setup.config.audio.sources@[k]).enabled
                && setup.config.audio.sources@[k].kind == AudioDeviceKind::Application
                && setup.config.audio.sources@[k].id@ == setup.audio_pids()[j].0,
{
    let sources = setup.config.audio.sources@;
    let p = super::model::is_enabled_app();
    let apps = sources.filter(p);
    sources.lemma_filter_pred(p, j);
    sources.lemma_filter_contains_rev(p, apps[j]);
    let k = choose|k: int| 0 <= k < sources.len() && sources[k] == apps[j];
    assert(sources[k].enabled);
}

/// While the applications with a track of their own run as they did when the
/// capture came up, polling leaves the session alone. When one of them opens or
/// closes the capture is restarted, so that its track appears or disappears;
/// during a recording, or without a capture, nothing happens.
pub proof fn applications_that_come_and_go_restart_the_capture(s: Session)
    requires
        s.e.drive.generation < u64::MAX,
    ensures
        s.e.setup.audio_pids() == s.e.app_audio ==> s.app_audio_polled() == s,
        s.e.wishes.recording ==> s.app_audio_polled() == s,
        !is_up(s.e.drive) ==> s.app_audio_polled() == s,
        s.e.setup.audio_pids() != s.e.app_audio && is_up(s.e.drive) && needs_frames(s.e.wishes)
            && !s.e.wishes.recording ==> {
            let after = s.app_audio_polled();
            &&& restarts_anew(s.e.drive, after.e.drive, s.e.setup)
            &&& after.e.setup == s.e.setup
            &&& after.e.wishes == s.e.wishes
            &&& after.s.recording == s.s.recording
            &&& after.s.failure is None
        },
{
    reveal(Session::restarted);
    restarting_restarts_anew(s.e.drive, s.e.setup);
}

/// Displays that come or go leave the capture alone while the one that it shows
/// is connected, and the same displays change nothing at all.
pub proof fn a_connected_display_is_captured_on(s: Session, current: Vec<MonitorInfo>)
    requires
        is_connected(Setup { monitors: current, ..s.e.setup }, asked_display(s.e.setup)),
    ensures
        s.monitors_refreshed(current).e.drive == s.e.drive,
        s.monitors_refreshed(current).s == s.s,
        s.monitors_refreshed(current).e.wishes == s.e.wishes,
        crate::config::monitor_views(s.monitors_refreshed(current).e.setup.monitors@)
            == crate::config::monitor_views(current@),
{
    reveal(Session::monitors_refreshed);
    let setup = Setup { monitors: current, ..s.e.setup };
    assert(setup.display() == asked_display(s.e.setup));
}

/// A game hook that dies falls back to the display for the rest of the session:
/// the capture is restarted without it, and the user is told.
pub proof fn a_lost_hook_falls_back_to_the_display(s: Session, message: String, now: u64)
    requires
        s.s.failure == Some(CaptureError::GameCapture(message)),
        needs_frames(s.e.wishes),
        s.e.drive.generation < u64::MAX,
    ensures
        ({
            let after = s.failure_retired(now);
            &&& after.e.drive.game_capture_unavailable
            &&& starts_anew(s.e.drive, after.e.drive, s.e.setup)
            &&& after.e.drive.notice is Some
            &&& after.s.failure is None
            &&& after.s.recording == s.s.recording
            &&& after.e.wishes == s.e.wishes
            &&& after.e.restarts == s.e.restarts
        }),
{
    reveal(Session::failure_retired);
    reveal(DriveView::unhooked);
    let d = DriveView { game_capture_unavailable: true, ..s.e.drive.stopped() };
    restarting_restarts_anew(d, s.e.setup);
    grows(s.e.drive, d, d.restarted(s.e.setup, true));
}

proof fn grows(first: DriveView, next: DriveView, last: DriveView)
    requires
        next.commands == first.commands.push(Command::StopBackend),
        next.commands.is_prefix_of(last.commands),
    ensures
        first.commands.is_prefix_of(last.commands),
{
    assert(last.commands.take(next.commands.len() as int) =~= next.commands);
    assert(last.commands.take(first.commands.len() as int) =~= first.commands);
}

/// A pipeline that fails is started again while fewer than three restarts were
/// made in the last minute, and the user is told; after that the capture stays
/// down and the failure is shown. A recording is kept either way.
pub proof fn a_failed_pipeline_is_restarted_or_shown(s: Session, now: u64)
    requires
        s.s.failure matches Some(failure) && failure is Pipeline,
        needs_frames(s.e.wishes),
        s.e.drive.generation < u64::MAX,
    ensures
        ({
            let after = s.failure_retired(now);
            &&& if s.e.may_restart(now) {
                &&& starts_anew(s.e.drive, after.e.drive, s.e.setup)
                &&& after.e.drive.notice is Some
                &&& after.e.restarts.len() > 0 && after.e.restarts.last() == now
            } else {
                &&& !is_up(after.e.drive)
                &&& after.e.drive.last_failure is Some
                &&& after.e.drive.commands == s.e.drive.commands.push(Command::StopBackend)
            }
            &&& after.s.failure is None
            &&& after.s.recording == s.s.recording
            &&& after.e.wishes == s.e.wishes
            &&& after.e.drive.unavailable_audio == s.e.drive.unavailable_audio
            &&& after.e.drive.game_capture_unavailable == s.e.drive.game_capture_unavailable
        }),
{
    reveal(Session::failure_retired);
    reveal(DriveView::recovered);
    let d = s.e.drive.stopped();
    restarting_restarts_anew(d, s.e.setup);
    grows(s.e.drive, d, d.restarted(s.e.setup, true));
}

/// A device that fails in the middle of a capture is dropped for the session and
/// the capture started anew without it.
pub proof fn a_lost_device_is_dropped(s: Session, key: String, message: String, now: u64)
    requires
        s.s.failure == Some(CaptureError::AudioSource { key, message }),
        s.e.drive.generation < u64::MAX,
    ensures
        ({
            let after = s.failure_retired(now);
            &&& after.e.drive.unavailable_audio == s.e.drive.unavailable_audio.insert(key@)
            &&& needs_frames(s.e.wishes) ==> starts_anew(s.e.drive, after.e.drive, s.e.setup)
            &&& !needs_frames(s.e.wishes) ==> !is_up(after.e.drive)
            &&& after.e.drive.notice is Some
            &&& after.e.restarts == s.e.restarts
            &&& after.s.recording == s.s.recording
        }),
{
    reveal(Session::failure_retired);
    reveal(DriveView::going_on_without);
    reveal(DriveView::restarted);
    let d = DriveView {
        unavailable_audio: s.e.drive.unavailable_audio.insert(key@),
        ..s.e.drive.stopped()
    };
    restarting_restarts_anew(d, s.e.setup);
    grows(s.e.drive, d, d.restarted(s.e.setup, true));
}

/// Any other failure stops the capture and is shown with its text, and so is
/// every failure that nobody needs frames of, but for a lost device.
pub proof fn other_failures_are_shown(s: Session, failure: CaptureError, now: u64)
    requires
        s.s.failure == Some(failure),
        !(failure is AudioSource),
        !needs_frames(s.e.wishes) || !(failure is GameCapture) && !(failure is Pipeline),
    ensures
        ({
            let after = s.failure_retired(now);
            &&& !is_up(after.e.drive)
            &&& after.e.drive.last_failure == Some(failure.text())
            &&& after.e.drive.commands == s.e.drive.commands.push(Command::StopBackend)
            &&& after.s.failure is None
            &&& after.s.recording == s.s.recording
            &&& after.e.wishes == s.e.wishes
            &&& after.e.restarts == s.e.restarts
        }),
{
    reveal(Session::failure_retired);
}

/// Without a failure there is nothing to deal with.
pub proof fn without_a_failure_nothing_happens(s: Session, now: u64)
    requires
        s.s.failure is None,
    ensures
        s.failure_retired(now) == s,
{
    reveal(Session::failure_retired);
}

/// What the status shows: a failure before anything else, then whether the
/// buffer fills, is on its way up or is off, and what the recording does.
pub proof fn the_status_tells_the_state(
    s: Session,
    report: super::BufferReport,
    r: super::EngineStatus,
)
    requires
        s.has_status(report, r),
    ensures
        r.buffer is Failed <==> s.e.drive.last_failure is Some,
        r.buffer matches super::BufferState::Failed(text) ==> Some(text@)
            == s.e.drive.last_failure,
        r.buffer is Running <==> s.e.drive.last_failure is None && s.e.drive.running
            && s.s.failure is None && (s.e.wishes.buffer || s.e.wishes.auto_buffer),
        r.buffer is Starting <==> s.e.drive.last_failure is None && !(s.e.drive.running
            && s.s.failure is None) && s.e.drive.starting is Some && (s.e.wishes.buffer
            || s.e.wishes.auto_buffer),
        r.recording is Finishing <==> s.e.finishing,
        !s.e.finishing ==> (r.recording is Idle <==> s.s.recording is Idle),
        !s.e.finishing ==> (r.recording is Starting <==> s.s.recording is Pending),
        !s.e.finishing ==> (r.recording is Active <==> s.s.recording is Active),
        !s.e.finishing ==> (r.recording is Failed <==> s.s.recording is Failed),
        !s.e.finishing && s.s.recording is Active ==> r.recording->path == s.s.recording->path,
        r.blank ==> report.stats.looks_blank,
        report.stats.looks_blank && s.e.drive.running && s.s.failure is None ==> r.blank,
        r.encoder == s.e.active,
        r.replay_length == s.e.setup.replay_seconds(),
        super::model::text_view(r.notice) == s.e.drive.notice,
{
}

/// A source of a track that did not fail is recorded, an application only while
/// it runs. An application records its own process; the default output leaves
/// the first running application out; everything else stays as it is.
pub proof fn every_live_source_is_recorded(
    sources: Seq<AudioSourceSettings>,
    unavailable: Set<Seq<char>>,
    pids: Seq<(Seq<char>, u32)>,
    k: int,
    j: int,
)
    requires
        0 <= k < sources.len(),
        !unavailable.contains(crate::config::source_key(sources[k].kind, sources[k].id@)),
        sources[k].kind == AudioDeviceKind::Application ==> 0 <= j < pids.len() && pids[j].0
            == sources[k].id@ && pids[j].1 != 0 && forall|i: int|
            0 <= i < j ==> (#[trigger] pids[i]).0 != sources[k].id@,
    ensures
        exists|m: int|
            0 <= m < live_sources(sources, unavailable, pids).len() && ({
                let live = #[trigger] live_sources(sources, unavailable, pids)[m];
                let is_default = sources[k].kind == AudioDeviceKind::Output && sources[k].id@
                    == crate::config::default_audio_device_id();
                &&& live == (AudioSourceSettings { process: live.process, ..sources[k] })
                &&& sources[k].kind == AudioDeviceKind::Application ==> live.process == pids[j].1
                &&& sources[k].kind != AudioDeviceKind::Application && !is_default ==> live.process
                    == sources[k].process
                &&& is_default ==> leaves_out(pids, live.process)
            }),
{
    let available = sources.filter(super::capture::is_available(unavailable));
    let placed = available.map_values(super::capture::with_process(pids));
    let live = live_sources(sources, unavailable, pids);
    sources.lemma_filter_contains(super::capture::is_available(unavailable), k);
    let a = choose|a: int| 0 <= a < available.len() && available[a] == sources[k];
    if sources[k].kind == AudioDeviceKind::Application {
        a_listed_process_is_found(pids, sources[k].id@, j);
    }
    the_first_running_is_found(pids);
    assert(super::capture::is_audible()(placed[a]));
    placed.lemma_filter_contains(super::capture::is_audible(), a);
    let m = choose|m: int| 0 <= m < live.len() && live[m] == placed[a];
    assert(live[m] == placed[a]);
}

/// Whether a process is that of the first application that runs, or zero where
/// none does.
pub open spec fn leaves_out(pids: Seq<(Seq<char>, u32)>, process: u32) -> bool {
    ||| exists|i: int|
        0 <= i < pids.len() && (#[trigger] pids[i]).1 == process && process != 0 && forall|k: int|
            0 <= k < i ==> (#[trigger] pids[k]).1 == 0
    ||| process == 0 && forall|i: int| 0 <= i < pids.len() ==> (#[trigger] pids[i]).1 == 0
}

proof fn a_listed_process_is_found(pids: Seq<(Seq<char>, u32)>, id: Seq<char>, j: int)
    requires
        0 <= j < pids.len(),
        pids[j].0 == id,
        forall|i: int| 0 <= i < j ==> (#[trigger] pids[i]).0 != id,
    ensures
        super::capture::listed_pid(pids, id) == pids[j].1,
    decreases pids.len(),
{
    if j > 0 {
        let rest = pids.drop_first();
        assert(forall|i: int| 0 <= i < j - 1 ==> rest[i] == pids[i + 1]);
        a_listed_process_is_found(rest, id, j - 1);
    }
}

proof fn the_first_running_is_found(pids: Seq<(Seq<char>, u32)>)
    ensures
        leaves_out(pids, super::capture::first_running(pids)),
    decreases pids.len(),
{
    if pids.len() > 0 && pids[0].1 == 0 {
        let rest = pids.drop_first();
        let process = super::capture::first_running(rest);
        the_first_running_is_found(rest);
        assert(forall|i: int| 0 < i < pids.len() ==> pids[i] == rest[i - 1]);
        if process != 0 {
            let i = choose|i: int|
                0 <= i < rest.len() && (#[trigger] rest[i]).1 == process && process != 0 && forall|
                    k: int,
                |
                    0 <= k < i ==> (#[trigger] rest[k]).1 == 0;
            assert(pids[i + 1].1 == process);
            assert forall|k: int| 0 <= k < i + 1 implies (#[trigger] pids[k]).1 == 0 by {
                if k > 0 {
                    assert(rest[k - 1].1 == 0);
                }
            }
        } else {
            assert forall|k: int| 0 <= k < pids.len() implies (#[trigger] pids[k]).1 == 0 by {
                if k > 0 {
                    assert(rest[k - 1].1 == 0);
                }
            }
        }
    }
}

/// A notice about an audio source calls it by the name of the first source with
/// its key.
pub proof fn an_audio_source_is_named(sources: Seq<AudioSourceConfig>, k: int)
    requires
        0 <= k < sources.len(),
        forall|i: int|
            0 <= i < k ==> crate::config::source_key(
                (#[trigger] sources[i]).kind,
                sources[i].id@,
            ) != crate::config::source_key(sources[k].kind, sources[k].id@),
    ensures
        super::model::source_name(
            sources,
            crate::config::source_key(sources[k].kind, sources[k].id@),
        ) == sources[k].name@,
    decreases sources.len(),
{
    if k > 0 {
        let rest = sources.drop_first();
        assert(forall|i: int| 0 <= i < rest.len() ==> rest[i] == sources[i + 1]);
        assert(crate::config::source_key(sources[0].kind, sources[0].id@)
            != crate::config::source_key(sources[k].kind, sources[k].id@));
        an_audio_source_is_named(rest, k - 1);
    }
}

} // verus!
