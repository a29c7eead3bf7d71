//! The state of a capture session and the steps it takes, as mathematics.
//! The executable side of each step is in [`super`].
use vstd::prelude::*;

use crate::config::{
    AudioDeviceKind, AudioSourceConfig, AutoCapture, CaptureMethod, Config, DetectedGame,
    DisplaySelection, EncoderInfo, GameProfile, MonitorInfo, RunningProcess,
};
use crate::error::CaptureError;
use crate::sink::{CaptureSink, FilePath, SinkRecording};

verus! {

/// What the engine asks of the capture backend and of the replay buffer, in
/// order.
#[derive(Debug)]
pub enum Command {
    /// Stop the capture, or cancel the start in flight.
    StopBackend,
    /// Start capturing on a worker thread and report the outcome with the
    /// generation.
    Start { generation: u64, encoder: EncoderInfo, display: DisplaySelection },
    /// Keep at most this much in the replay buffer.
    SetLimits { max_seconds: u32, memory_cap_mb: u32 },
    /// Empty the replay buffer.
    ClearBuffer,
    /// Forget the audio tracks of the replay buffer.
    ClearAudioTracks,
    /// Adjust the level of a running audio source.
    SetAudioLevel { kind: AudioDeviceKind, id: String, volume: u32, muted: bool },
}

/// One capture start in progress: the encoders still to try, in order, and
/// what failed so far.
#[derive(Debug)]
pub struct StartPlan {
    pub candidates: Vec<EncoderInfo>,
    pub index: usize,
    pub display: DisplaySelection,
    pub failures: Vec<String>,
    /// Tells a stale result (from an attempt that was cancelled and
    /// replaced) from the one this plan is waiting for.
    pub generation: u64,
}

/// What a [`StartPlan`] says.
pub struct PlanView {
    pub candidates: Seq<EncoderInfo>,
    pub index: int,
    pub display: DisplaySelection,
    pub failures: Seq<Seq<char>>,
    pub generation: u64,
}

impl View for StartPlan {
    type V = PlanView;

    open spec fn view(&self) -> PlanView {
        PlanView {
            candidates: self.candidates@,
            index: self.index as int,
            display: self.display,
            failures: crate::text::views(self.failures@),
            generation: self.generation,
        }
    }
}

/// What a capture is set up from.
#[derive(Debug)]
pub struct Setup {
    pub config: Config,
    /// The registered encoders, best first.
    pub encoders: Vec<EncoderInfo>,
    /// The encoder the user asked for (or the best registered one).
    pub preferred: EncoderInfo,
    pub monitors: Vec<MonitorInfo>,
    /// The game that is currently driving naming and overrides.
    pub active_game: Option<DetectedGame>,
    /// Whether games can be hooked.
    pub game_capture: bool,
    pub processes: Vec<RunningProcess>,
}

/// What the user and the game watcher want.
#[derive(Debug, Clone, Copy, PartialEq, Eq, Structural)]
pub struct Wishes {
    /// Whether the user wants the replay buffer running.
    pub buffer: bool,
    /// Whether the game watcher wants the buffer running.
    pub auto_buffer: bool,
    pub recording: bool,
    /// The recording was started by the game watcher and ends with the game.
    pub auto_recording: bool,
}

/// The capture on its way up or running.
#[derive(Debug)]
pub struct Drive {
    pub starting: Option<StartPlan>,
    pub generation: u64,
    /// Whether the backend was running when it was last observed.
    pub running: bool,
    /// Audio sources that failed this session, skipped until settings change.
    pub unavailable_audio: Vec<String>,
    /// Game capture failed this session (or for this game); fall back to
    /// display until the game or the settings change.
    pub game_capture_unavailable: bool,
    pub notice: Option<String>,
    pub last_failure: Option<String>,
    /// What is to be done outside, in order.
    pub commands: Vec<Command>,
}

/// What a [`Drive`] says.
pub struct DriveView {
    pub starting: Option<PlanView>,
    pub generation: u64,
    pub running: bool,
    pub unavailable_audio: Set<Seq<char>>,
    pub game_capture_unavailable: bool,
    pub notice: Option<Seq<char>>,
    pub last_failure: Option<Seq<char>>,
    pub commands: Seq<Command>,
}

/// What a text that may be missing says.
pub open spec fn text_view(text: Option<String>) -> Option<Seq<char>> {
    match text {
        Some(s) => Some(s@),
        None => None,
    }
}

impl View for Drive {
    type V = DriveView;

    open spec fn view(&self) -> DriveView {
        DriveView {
            starting: match self.starting {
                Some(plan) => Some(plan@),
                None => None,
            },
            generation: self.generation,
            running: self.running,
            unavailable_audio: crate::text::views(self.unavailable_audio@).to_set(),
            game_capture_unavailable: self.game_capture_unavailable,
            notice: text_view(self.notice),
            last_failure: text_view(self.last_failure),
            commands: self.commands@,
        }
    }
}

/// What the engine knows.
pub struct EngineView {
    pub backend: Seq<char>,
    pub setup: Setup,
    pub wishes: Wishes,
    pub drive: DriveView,
    pub active: EncoderInfo,
    pub app_audio: Seq<(Seq<char>, u32)>,
    pub restarts: Seq<u64>,
    pub finishing: bool,
    pub restart_pending: bool,
    pub blank_warned: bool,
}

/// The engine together with what the capture threads write into.
pub struct Session {
    pub e: EngineView,
    pub s: CaptureSink,
}

/// The other encoders than `preferred`.
pub open spec fn differs_from(preferred: EncoderInfo) -> spec_fn(EncoderInfo) -> bool {
    |e: EncoderInfo| e@ != preferred@
}

/// The order in which encoders are tried: the preferred one, then the
/// remaining registered ones, best first.
pub open spec fn candidates_of(
    preferred: EncoderInfo,
    encoders: Seq<EncoderInfo>,
) -> Seq<EncoderInfo> {
    seq![preferred] + encoders.filter(differs_from(preferred))
}

/// Enabled audio sources that are applications.
pub open spec fn is_enabled_app() -> spec_fn(AudioSourceConfig) -> bool {
    |s: AudioSourceConfig| s.enabled && s.kind == AudioDeviceKind::Application
}

/// The process id of the first process of an executable, or zero.
pub open spec fn pid_of(processes: Seq<RunningProcess>, exe: Seq<char>) -> u32
    decreases processes.len(),
{
    if processes.len() == 0 {
        0
    } else if processes[0].exe@ == exe {
        processes[0].pid
    } else {
        pid_of(processes.drop_first(), exe)
    }
}

/// An application audio source and its process.
pub open spec fn with_pid(processes: Seq<RunningProcess>) -> spec_fn(AudioSourceConfig) -> (
    Seq<char>,
    u32,
) {
    |s: AudioSourceConfig| (s.id@, pid_of(processes, crate::text::lowercase(s.id@)))
}

/// The name of the audio source with this key, the key itself when there is
/// none.
pub open spec fn source_name(sources: Seq<AudioSourceConfig>, key: Seq<char>) -> Seq<char>
    decreases sources.len(),
{
    if sources.len() == 0 {
        key
    } else if crate::config::source_key(sources[0].kind, sources[0].id@) == key {
        sources[0].name@
    } else {
        source_name(sources.drop_first(), key)
    }
}

/// The commands that set the level of every audio source.
pub open spec fn level_command() -> spec_fn(AudioSourceConfig) -> Command {
    |s: AudioSourceConfig|
        Command::SetAudioLevel { kind: s.kind, id: s.id, volume: s.volume, muted: s.muted }
}

/// A minute, in nanoseconds.
pub open spec fn minute() -> int {
    60_000_000_000
}

/// The automatic restarts that are at most a minute old.
pub open spec fn recent(restarts: Seq<u64>, now: u64) -> Seq<u64>
    decreases restarts.len(),
{
    if restarts.len() > 0 && now - restarts[0] > minute() {
        recent(restarts.drop_first(), now)
    } else {
        restarts
    }
}

/// The automatic restarts in memory after one more was asked for.
pub open spec fn asked(restarts: Seq<u64>, now: u64) -> Seq<u64> {
    if recent(restarts, now).len() < 3 {
        recent(restarts, now).push(now)
    } else {
        recent(restarts, now)
    }
}

/// A notice with one more sentence.
pub open spec fn with_notice(notice: Option<Seq<char>>, text: Seq<char>) -> Option<Seq<char>> {
    match notice {
        Some(existing) => Some(existing + " "@ + text),
        None => Some(text),
    }
}

/// What the settings that changed mean for the running capture.
#[derive(Debug, Clone, Copy, PartialEq, Eq, Structural)]
pub struct ConfigChanges {
    pub hotkeys: bool,
    pub replay_limits: bool,
    pub capture_restart: bool,
    pub audio_levels: bool,
}

/// What stopping a recording means for its file.
#[derive(Debug)]
pub enum StopOutcome {
    /// There was nothing to stop.
    Nothing,
    /// Close the file on a worker thread and report the clip.
    Finish(FilePath),
    /// Report this failure.
    Report(String),
}

/// What a [`StopOutcome`] says.
pub enum StopView {
    Nothing,
    Finish(FilePath),
    Report(Seq<char>),
}

impl View for StopOutcome {
    type V = StopView;

    open spec fn view(&self) -> StopView {
        match self {
            StopOutcome::Nothing => StopView::Nothing,
            StopOutcome::Finish(path) => StopView::Finish(*path),
            StopOutcome::Report(reason) => StopView::Report(reason@),
        }
    }
}

impl Wishes {
    /// Someone wants the replay buffer.
    pub open spec fn any_buffer(self) -> bool {
        self.buffer || self.auto_buffer
    }

    /// Someone wants frames.
    pub open spec fn any(self) -> bool {
        self.buffer || self.auto_buffer || self.recording
    }
}

/// The folder below the output folder that a game asks for.
pub open spec fn wanted_subfolder(profile: GameProfile) -> Option<Seq<char>> {
    match profile.subfolder {
        Some(sub) => {
            let name = crate::text::trimmed(sub@);
            if name.len() == 0 {
                None
            } else {
                Some(name)
            }
        },
        None => None,
    }
}

impl Setup {
    /// The profile of the active game.
    pub open spec fn game_profile(self) -> Option<GameProfile> {
        match self.active_game {
            Some(game) => game.profile,
            None => None,
        }
    }

    /// The name of the active game, empty without one.
    pub open spec fn game(self) -> Seq<char> {
        match self.active_game {
            Some(game) => game.name@,
            None => Seq::empty(),
        }
    }

    /// The replay length in seconds with the active game's override applied.
    pub open spec fn replay_seconds(self) -> u32 {
        match self.game_profile() {
            Some(GameProfile { replay_length_seconds: Some(seconds), .. }) => seconds,
            _ => self.config.replay.length_seconds,
        }
    }

    /// The display with the active game's override applied.
    pub open spec fn display(self) -> DisplaySelection {
        match self.game_profile() {
            Some(GameProfile { display: Some(display), .. }) => display,
            _ => self.config.capture.display,
        }
    }

    /// The capture method with the active game's override applied.
    pub open spec fn method(self) -> CaptureMethod {
        match self.game_profile() {
            Some(GameProfile { capture_method: Some(method), .. }) => method,
            _ => self.config.capture.method,
        }
    }

    /// The process to hook, when game capture is chosen and possible and has
    /// not failed.
    pub open spec fn game_pid(self, unavailable: bool) -> Option<u32> {
        if unavailable || self.method() != CaptureMethod::Game || !self.game_capture {
            None
        } else {
            match self.active_game {
                Some(game) => Some(game.pid),
                None => None,
            }
        }
    }

    /// The folder below the output folder that the active game asks for.
    pub open spec fn subfolder(self) -> Option<Seq<char>> {
        match self.game_profile() {
            Some(profile) => wanted_subfolder(profile),
            None => None,
        }
    }

    /// The enabled application audio sources, each with its process or zero.
    pub open spec fn audio_pids(self) -> Seq<(Seq<char>, u32)> {
        let apps = self.config.audio.sources@.filter(is_enabled_app());
        if apps.len() == 0 || !self.config.audio.enabled {
            Seq::empty()
        } else {
            apps.map_values(with_pid(self.processes@))
        }
    }

    /// The replay limits in force.
    pub open spec fn limits(self) -> Command {
        Command::SetLimits {
            max_seconds: self.replay_seconds(),
            memory_cap_mb: self.config.replay.memory_cap_mb,
        }
    }

    /// Whether the display to capture is not connected.
    pub open spec fn display_missing(self) -> bool {
        match self.display() {
            DisplaySelection::Monitor(id) => !crate::config::lists_monitor(self.monitors@, id@),
            DisplaySelection::Primary => false,
        }
    }

    /// What a start says about the display.
    pub open spec fn start_notice(self) -> Option<Seq<char>> {
        match self.display() {
            DisplaySelection::Monitor(id) => if self.display_missing() {
                Some(
                    "Display "@ + id@
                        + " is not connected, capturing the primary display instead."@,
                )
            } else {
                None
            },
            DisplaySelection::Primary => None,
        }
    }

    /// The display a start captures.
    pub open spec fn start_display(self) -> DisplaySelection {
        if self.display_missing() {
            DisplaySelection::Primary
        } else {
            self.display()
        }
    }

    /// The plan of a start.
    pub open spec fn plan(self) -> PlanView {
        PlanView {
            candidates: candidates_of(self.preferred, self.encoders@),
            index: 0,
            display: self.start_display(),
            failures: Seq::empty(),
            generation: 0,
        }
    }
}

impl DriveView {
    /// With one more sentence in the notice.
    pub open spec fn noticed(self, text: Seq<char>) -> DriveView {
        DriveView { notice: with_notice(self.notice, text), ..self }
    }

    /// With one more command for the outside.
    pub open spec fn commanding(self, command: Command) -> DriveView {
        DriveView { commands: self.commands.push(command), ..self }
    }

    /// After the backend was stopped and the plan behind it forgotten.
    pub open spec fn stopped(self) -> DriveView {
        DriveView {
            running: false,
            starting: None,
            commands: self.commands.push(Command::StopBackend),
            ..self
        }
    }

    /// After the current candidate of the plan was handed to the backend, or
    /// the plan was given up because none is left.
    pub open spec fn launched(self) -> DriveView {
        let generation = (self.generation + 1) as u64;
        match self.starting {
            None => DriveView { generation, ..self },
            Some(plan) => if plan.index < plan.candidates.len() {
                DriveView {
                    generation,
                    starting: Some(PlanView { generation, ..plan }),
                    commands: self.commands.push(
                        Command::Start {
                            generation,
                            encoder: plan.candidates[plan.index],
                            display: plan.display,
                        },
                    ),
                    ..self
                }
            } else {
                DriveView {
                    generation,
                    starting: None,
                    last_failure: Some(
                        "no video encoder could start: "@ + crate::text::joined(
                            plan.failures,
                            "; "@,
                        ),
                    ),
                    ..self
                }
            },
        }
    }

    /// After a capture start was set in motion.
    #[verifier::opaque]
    pub open spec fn started(self, setup: Setup) -> DriveView {
        DriveView {
            last_failure: None,
            notice: setup.start_notice(),
            starting: Some(setup.plan()),
            commands: self.commands.push(Command::ClearBuffer).push(Command::ClearAudioTracks),
            ..self
        }.launched()
    }

    /// After a restart: everything stops, and starts again if it is wanted.
    #[verifier::opaque]
    pub open spec fn restarted(self, setup: Setup, wanted: bool) -> DriveView {
        let down = self.stopped().commanding(Command::ClearBuffer);
        if wanted {
            down.started(setup)
        } else {
            down
        }
    }

    /// After a restart without the audio source that stopped working.
    #[verifier::opaque]
    pub open spec fn going_on_without(self, setup: Setup, wanted: bool, key: Seq<char>) -> DriveView {
        DriveView {
            unavailable_audio: self.unavailable_audio.insert(key),
            ..self
        }.restarted(setup, wanted).noticed(
            "Audio device "@ + source_name(setup.config.audio.sources@, key)
                + " stopped working, capturing without it."@,
        )
    }

    /// After falling back to display capture.
    #[verifier::opaque]
    pub open spec fn unhooked(self, setup: Setup, message: Seq<char>) -> DriveView {
        DriveView { game_capture_unavailable: true, ..self }.restarted(setup, true).noticed(
            "Game capture failed ("@ + message + "), using display capture."@,
        )
    }

    /// After a pipeline failure while frames are wanted: a restart when one
    /// is allowed, the failure shown otherwise.
    #[verifier::opaque]
    pub open spec fn recovered(self, setup: Setup, allowed: bool, message: Seq<char>) -> DriveView {
        if allowed {
            self.restarted(setup, true).noticed(
                "Capture restarted after an error ("@ + message + ")."@,
            )
        } else {
            self.failed("the capture pipeline failed: "@ + message)
        }
    }

    /// With a failure to show.
    pub open spec fn failed(self, text: Seq<char>) -> DriveView {
        DriveView { last_failure: Some(text), ..self }
    }

    /// After an attempt of the plan has failed.
    #[verifier::opaque]
    pub open spec fn attempt_failed(
        self,
        plan: PlanView,
        error: CaptureError,
        sources: Seq<AudioSourceConfig>,
    ) -> DriveView {
        let idle = DriveView { starting: None, ..self };
        let candidate = plan.candidates[plan.index];
        match error {
            CaptureError::AudioSource { key, .. } => DriveView {
                unavailable_audio: self.unavailable_audio.insert(key@),
                ..self
            }.noticed(
                "Audio device "@ + source_name(sources, key@)
                    + " is unavailable, capturing without it."@,
            ).launched(),
            CaptureError::EncoderStart { reason, .. } => DriveView {
                starting: Some(
                    PlanView {
                        failures: plan.failures.push(
                            candidate.kind.name() + " ("@ + reason@ + ")"@,
                        ),
                        index: plan.index + 1,
                        ..plan
                    },
                ),
                ..self
            }.launched(),
            CaptureError::GameCapture(message) => if self.game_capture_unavailable {
                DriveView {
                    last_failure: Some("game capture failed: "@ + message@),
                    ..idle
                }
            } else {
                DriveView { game_capture_unavailable: true, ..self }.noticed(
                    "Game capture failed ("@ + message@ + "), using display capture."@,
                ).launched()
            },
            CaptureError::Cancelled => idle,
            other => DriveView { last_failure: Some(other.text()), ..idle },
        }
    }
}

impl EngineView {
    /// Capture is running or on its way up.
    pub open spec fn engaged(self) -> bool {
        self.drive.running || self.drive.starting is Some
    }

    /// With another state of the capture.
    pub open spec fn driving(self, drive: DriveView) -> EngineView {
        EngineView { drive, ..self }
    }

    /// After the backend was stopped if nobody wants frames.
    pub open spec fn released(self) -> EngineView {
        if self.wishes.any() {
            self
        } else {
            self.driving(self.drive.stopped())
        }
    }

    /// After the capture came up with an encoder.
    #[verifier::opaque]
    pub open spec fn came_up(self, encoder: EncoderInfo) -> EngineView {
        let preferred = self.setup.preferred;
        let idle = DriveView { starting: None, ..self.drive };
        EngineView {
            app_audio: self.setup.audio_pids(),
            active: encoder,
            drive: if encoder@ != preferred@ {
                idle.noticed(
                    preferred.kind.name() + " could not start, using "@ + encoder.kind.name()
                        + " instead."@,
                )
            } else {
                idle
            },
            ..self
        }
    }

    /// After the attempt that the plan waits for has ended.
    #[verifier::opaque]
    pub open spec fn attempted(self, result: Result<(), CaptureError>) -> EngineView {
        match self.drive.starting {
            None => self,
            Some(plan) => if plan.index >= plan.candidates.len() {
                self.driving(DriveView { starting: None, ..self.drive })
            } else {
                match result {
                    Ok(()) => self.came_up(plan.candidates[plan.index]),
                    Err(error) => self.driving(
                        self.drive.attempt_failed(
                            plan,
                            error,
                            self.setup.config.audio.sources@,
                        ),
                    ),
                }
            },
        }
    }

    /// After one reported outcome: only the one that the plan waits for
    /// counts.
    pub open spec fn reported(self, report: (u64, Result<(), CaptureError>)) -> EngineView {
        match self.drive.starting {
            Some(plan) => if plan.generation == report.0 {
                self.attempted(report.1)
            } else {
                self
            },
            None => self,
        }
    }

    /// After the reported outcomes, in order.
    pub open spec fn polled(self, reports: Seq<(u64, Result<(), CaptureError>)>) -> EngineView
        decreases reports.len(),
    {
        if reports.len() == 0 {
            self
        } else {
            self.polled(reports.drop_last()).reported(reports.last())
        }
    }

    /// Whether an automatic restart is allowed: at most three per minute.
    pub open spec fn may_restart(self, now: u64) -> bool {
        recent(self.restarts, now).len() < 3
    }

    /// The automatic restarts in memory after one more was asked for.
    pub open spec fn restarts_after(self, now: u64) -> Seq<u64> {
        asked(self.restarts, now)
    }
}

impl Session {
    /// The capture delivers frames.
    pub open spec fn capturing(self) -> bool {
        self.e.drive.running && self.s.failure is None
    }

    /// The replay buffer fills.
    pub open spec fn buffering(self) -> bool {
        self.e.wishes.any_buffer() && self.capturing()
    }

    /// With another state of the capture.
    pub open spec fn driving(self, drive: DriveView) -> Session {
        Session { e: self.e.driving(drive), ..self }
    }

    /// With other wishes.
    pub open spec fn wishing(self, wishes: Wishes) -> Session {
        Session { e: EngineView { wishes, ..self.e }, ..self }
    }

    /// With one more sentence in the notice.
    pub open spec fn noticed(self, text: Seq<char>) -> Session {
        self.driving(self.e.drive.noticed(text))
    }

    /// After a capture start was set in motion.
    #[verifier::opaque]
    pub open spec fn started(self) -> Session {
        Session {
            e: self.e.driving(self.e.drive.started(self.e.setup)),
            s: CaptureSink { failure: None, ..self.s },
        }
    }

    /// After making sure that capture runs or is on its way up.
    #[verifier::opaque]
    pub open spec fn ensured(self) -> Session {
        if self.capturing() || self.e.drive.starting is Some {
            self
        } else {
            self.driving(self.e.drive.stopped()).started()
        }
    }

    /// After a restart: everything stops, and starts again if it is wanted.
    #[verifier::opaque]
    pub open spec fn restarted(self) -> Session {
        Session {
            e: self.e.driving(self.e.drive.restarted(self.e.setup, self.e.wishes.any())),
            s: if self.e.wishes.any() {
                CaptureSink { failure: None, ..self.s }
            } else {
                self.s
            },
        }
    }

    /// After the user turned the buffer on.
    #[verifier::opaque]
    pub open spec fn buffer_started(self) -> Session {
        Session {
            e: EngineView { wishes: Wishes { buffer: true, ..self.e.wishes }, ..self.e },
            s: CaptureSink { buffer_enabled: true, ..self.s },
        }.ensured()
    }

    /// After the buffer was turned off.
    #[verifier::opaque]
    pub open spec fn buffer_stopped(self) -> Session {
        Session {
            e: EngineView {
                wishes: Wishes { buffer: false, auto_buffer: false, ..self.e.wishes },
                drive: self.e.drive.commanding(Command::ClearBuffer),
                ..self.e
            }.released(),
            s: CaptureSink { buffer_enabled: false, ..self.s },
        }
    }

    /// Whether toggling turns the buffer off.
    pub open spec fn toggles_off(self) -> bool {
        self.e.wishes.any_buffer() && (self.capturing() || self.e.drive.starting is Some)
    }

    /// After a recording into `path` was asked for.
    #[verifier::opaque]
    pub open spec fn recording_started(self, path: FilePath) -> Session {
        if self.e.wishes.recording {
            self
        } else {
            let up = self.ensured();
            Session {
                e: EngineView { wishes: Wishes { recording: true, ..up.e.wishes }, ..up.e },
                s: CaptureSink { recording: SinkRecording::Pending(path), ..up.s },
            }
        }
    }

    /// After the recording was stopped, before a restart that waited for it.
    #[verifier::opaque]
    pub open spec fn recording_ended(self) -> Session {
        Session {
            e: EngineView {
                wishes: Wishes { recording: false, auto_recording: false, ..self.e.wishes },
                finishing: self.e.finishing || self.s.recording is Active,
                ..self.e
            }.released(),
            s: CaptureSink { recording: SinkRecording::Idle, ..self.s },
        }
    }

    /// After the recording was stopped.
    #[verifier::opaque]
    pub open spec fn recording_stopped(self) -> Session {
        if !self.e.wishes.recording {
            self
        } else {
            let down = self.recording_ended();
            if down.e.restart_pending {
                Session { e: EngineView { restart_pending: false, ..down.e }, ..down }.restarted()
            } else {
                down
            }
        }
    }

    /// What stopping the recording means for its file.
    pub open spec fn stop_outcome(self) -> StopView {
        if !self.e.wishes.recording {
            StopView::Nothing
        } else {
            match self.s.recording {
                SinkRecording::Active { path, .. } => StopView::Finish(path),
                SinkRecording::Pending(_) => StopView::Report("no frame was recorded"@),
                SinkRecording::Failed(reason) => StopView::Report(reason@),
                SinkRecording::Idle => StopView::Nothing,
            }
        }
    }

    /// After the active game changed. A new game gets a fresh attempt at game
    /// capture.
    #[verifier::opaque]
    pub open spec fn game_changed(self, active: Option<DetectedGame>) -> Session {
        let setup = Setup { active_game: active, ..self.e.setup };
        let next = Session {
            e: EngineView {
                setup,
                drive: DriveView {
                    game_capture_unavailable: false,
                    commands: self.e.drive.commands.push(setup.limits()),
                    ..self.e.drive
                },
                ..self.e
            },
            ..self
        };
        if (setup.display()@ != self.e.setup.display()@ || setup.game_pid(false)
            != self.e.setup.game_pid(self.e.drive.game_capture_unavailable)) && self.e.engaged()
            && !self.e.wishes.recording {
            next.restarted()
        } else {
            next
        }
    }

    /// After the watcher wants the buffer on or off.
    #[verifier::opaque]
    pub open spec fn auto_buffered(self, want: bool) -> Session {
        if want == self.e.wishes.auto_buffer {
            self
        } else {
            let next = Session {
                e: EngineView {
                    wishes: Wishes { auto_buffer: want, ..self.e.wishes },
                    ..self.e
                },
                s: CaptureSink { buffer_enabled: self.e.wishes.buffer || want, ..self.s },
            };
            if want {
                next.ensured()
            } else if !self.e.wishes.buffer {
                Session {
                    e: next.e.driving(next.e.drive.commanding(Command::ClearBuffer)).released(),
                    ..next
                }
            } else {
                next
            }
        }
    }

    /// After the active game was taken over.
    #[verifier::opaque]
    pub open spec fn game_followed(self, active: Option<DetectedGame>) -> Session {
        if same_game(active, self.e.setup.active_game) {
            Session {
                e: EngineView { setup: Setup { active_game: active, ..self.e.setup }, ..self.e },
                ..self
            }
        } else {
            self.game_changed(active)
        }
    }

    /// After the watcher wants a recording or not.
    #[verifier::opaque]
    pub open spec fn auto_recorded(self, want: bool, path: FilePath) -> Session {
        if want && !self.e.wishes.recording {
            self.wishing(Wishes { auto_recording: true, ..self.e.wishes }).recording_started(path)
        } else if !want && self.e.wishes.auto_recording && self.e.wishes.recording {
            self.recording_stopped()
        } else {
            self
        }
    }

    /// After the watcher's view was applied: the active game, and what
    /// capture should be doing. `path` is where a recording would go.
    pub open spec fn game_set(
        self,
        active: Option<DetectedGame>,
        auto: AutoCapture,
        path: FilePath,
    ) -> Session {
        self.game_followed(active).auto_buffered(auto == AutoCapture::Buffer).auto_recorded(
            auto == AutoCapture::Recording,
            path,
        )
    }

    /// After application audio sources may have come or gone.
    pub open spec fn app_audio_polled(self) -> Session {
        if self.e.setup.audio_pids() != self.e.app_audio && self.e.engaged()
            && !self.e.wishes.recording {
            self.restarted()
        } else {
            self
        }
    }

    /// The encoder that new settings choose, if they change it.
    pub open spec fn preferred_after(
        self,
        next: Config,
        chosen: Option<EncoderInfo>,
    ) -> EncoderInfo {
        match chosen {
            Some(encoder) => if self.e.setup.config.capture.encoder != next.capture.encoder {
                encoder
            } else {
                self.e.setup.preferred
            },
            None => self.e.setup.preferred,
        }
    }

    /// With new settings, before the running capture follows them.
    pub open spec fn reconfigured(
        self,
        next: Config,
        changes: ConfigChanges,
        chosen: Option<EncoderInfo>,
    ) -> Session {
        let setup = Setup {
            config: next,
            preferred: self.preferred_after(next, chosen),
            ..self.e.setup
        };
        Session {
            e: EngineView {
                setup,
                drive: if changes.replay_limits {
                    self.e.drive.commanding(setup.limits())
                } else {
                    self.e.drive
                },
                ..self.e
            },
            ..self
        }
    }

    /// After new settings were applied. `chosen` is the encoder that they
    /// choose among the registered ones.
    pub open spec fn configured(
        self,
        next: Config,
        changes: ConfigChanges,
        chosen: Option<EncoderInfo>,
    ) -> Session {
        let with = self.reconfigured(next, changes, chosen);
        if changes.capture_restart {
            let fresh = with.driving(
                DriveView {
                    unavailable_audio: Set::empty(),
                    game_capture_unavailable: false,
                    ..with.e.drive
                },
            );
            if !fresh.e.engaged() {
                fresh
            } else if fresh.e.wishes.recording {
                Session {
                    e: EngineView {
                        restart_pending: true,
                        drive: DriveView {
                            notice: Some(
                                "Capture settings apply when the current recording stops."@,
                            ),
                            ..fresh.e.drive
                        },
                        ..fresh.e
                    },
                    ..fresh
                }
            } else {
                fresh.restarted()
            }
        } else if changes.audio_levels {
            with.driving(
                DriveView {
                    commands: with.e.drive.commands + next.audio.sources@.map_values(
                        level_command(),
                    ),
                    ..with.e.drive
                },
            )
        } else {
            with
        }
    }

    /// After the displays were listed again.
    #[verifier::opaque]
    pub open spec fn monitors_refreshed(self, current: Vec<MonitorInfo>) -> Session {
        if crate::config::monitor_views(current@) == crate::config::monitor_views(
            self.e.setup.monitors@,
        ) {
            self
        } else {
            let next = Session {
                e: EngineView { setup: Setup { monitors: current, ..self.e.setup }, ..self.e },
                ..self
            };
            if next.e.setup.display_missing() && next.e.engaged() && !next.e.wishes.recording {
                next.restarted()
            } else {
                next
            }
        }
    }

    /// After the failure that the capture threads reported was dealt with.
    #[verifier::opaque]
    pub open spec fn failure_retired(self, now: u64) -> Session {
        match self.s.failure {
            None => self,
            Some(failure) => {
                let down = self.e.drive.stopped();
                let setup = self.e.setup;
                let wanted = self.e.wishes.any();
                let restarts = failure is Pipeline && wanted;
                Session {
                    e: EngineView {
                        drive: match failure {
                            CaptureError::AudioSource { key, .. } => down.going_on_without(
                                setup,
                                wanted,
                                key@,
                            ),
                            CaptureError::GameCapture(message) => if wanted {
                                down.unhooked(setup, message@)
                            } else {
                                down.failed(failure.text())
                            },
                            CaptureError::Pipeline { message, .. } => if wanted {
                                down.recovered(setup, self.e.may_restart(now), message@)
                            } else {
                                down.failed(failure.text())
                            },
                            _ => down.failed(failure.text()),
                        },
                        restarts: if restarts {
                            self.e.restarts_after(now)
                        } else {
                            self.e.restarts
                        },
                        ..self.e
                    },
                    s: CaptureSink { failure: None, ..self.s },
                }
            },
        }
    }
}

impl Session {
    /// After the reported outcomes were applied and then the failure was dealt
    /// with.
    pub open spec fn settled(
        self,
        reports: Seq<(u64, Result<(), CaptureError>)>,
        now: u64,
    ) -> Session {
        Session { e: self.e.polled(reports), ..self }.failure_retired(now)
    }

    /// Whether the capture looks blank and the user knows, or is told now.
    pub open spec fn warns_of(self, report: super::BufferReport) -> bool {
        report.stats.looks_blank && (self.e.blank_warned || self.capturing())
    }

    /// Whether this is the status at this point; `report` is what the replay
    /// buffer says about itself.
    pub open spec fn has_status(self, report: super::BufferReport, r: super::EngineStatus) -> bool {
        &&& match self.e.drive.last_failure {
            Some(failure) => r.buffer matches super::BufferState::Failed(text) && text@ == failure,
            None => r.buffer == if self.buffering() {
                super::BufferState::Running
            } else if self.e.drive.starting is Some && self.e.wishes.any_buffer() {
                super::BufferState::Starting
            } else {
                super::BufferState::Stopped
            },
        }
        &&& r.recording == if self.e.finishing {
            super::RecordingState::Finishing
        } else {
            match self.s.recording {
                SinkRecording::Idle => super::RecordingState::Idle,
                SinkRecording::Pending(_) => super::RecordingState::Starting,
                SinkRecording::Active { path, first, last } => super::RecordingState::Active {
                    path,
                    duration: if last >= first {
                        (last - first) as u64
                    } else {
                        0
                    },
                },
                SinkRecording::Failed(reason) => super::RecordingState::Failed(reason),
            }
        }
        &&& r.report == report
        &&& r.encoder == self.e.active
        &&& r.backend@ == self.e.backend
        &&& r.replay_length == self.e.setup.replay_seconds()
        &&& text_view(r.notice) == self.e.drive.notice
        &&& r.blank == self.warns_of(report)
    }
}

/// Whether two games, or their absence, are the same.
pub open spec fn same_game(a: Option<DetectedGame>, b: Option<DetectedGame>) -> bool {
    match (a, b) {
        (Some(x), Some(y)) => x.exe@ == y.exe@,
        (None, None) => true,
        _ => false,
    }
}

} // verus!
