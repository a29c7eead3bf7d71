//! Connects the capture backend to the replay buffer and the session
//! recorder, and turns hotkey presses into clip files. The engine decides;
//! what it wants done outside, it puts into its list of commands.
use std::collections::VecDeque;

use vstd::prelude::*;

use crate::config::{Config, EncoderInfo, MonitorInfo, RunningProcess};
use crate::error::{AppError, CaptureError};
use crate::sink::{CaptureSink, FilePath};
use model::{Command, Drive, Setup, Wishes};

pub mod actions;
pub mod capture;
pub mod drive;
pub mod following;
pub mod game;
pub mod laws;
pub mod model;
pub mod outcomes;
pub mod setup;
pub mod status;

verus! {

/// What the replay buffer is doing.
#[derive(Debug)]
pub enum BufferState {
    Stopped,
    /// Capture is being brought up on a worker thread.
    Starting,
    Running,
    Failed(String),
}

/// What the recording is doing. The duration is in nanoseconds.
#[derive(Debug)]
pub enum RecordingState {
    Idle,
    /// Waiting for the next keyframe to open the file.
    Starting,
    Active { path: FilePath, duration: u64 },
    Finishing,
    Failed(String),
}

/// What the replay buffer holds. The duration is in nanoseconds.
#[derive(Debug, Clone, Copy, PartialEq, Eq, Structural)]
pub struct ReplayStats {
    pub duration: u64,
    pub bytes: u64,
    pub looks_blank: bool,
}

/// The video stream that is captured.
#[derive(Debug, Clone, Copy, PartialEq, Eq, Structural)]
pub struct StreamInfo {
    pub width: u32,
    pub height: u32,
    pub fps_numerator: u32,
    pub fps_denominator: u32,
}

/// What the replay buffer reports about itself.
#[derive(Debug, Clone, Copy, PartialEq, Eq, Structural)]
pub struct BufferReport {
    pub stats: ReplayStats,
    pub stream: Option<StreamInfo>,
    pub audio_tracks: usize,
}

/// The state that the interface shows.
#[derive(Debug)]
pub struct EngineStatus {
    pub buffer: BufferState,
    pub recording: RecordingState,
    pub report: BufferReport,
    pub encoder: EncoderInfo,
    /// The name of the capture backend.
    pub backend: &'static str,
    /// The length of the replay buffer in seconds.
    pub replay_length: u32,
    /// Non fatal information such as an encoder fallback.
    pub notice: Option<String>,
    /// The capture is producing black or empty frames.
    pub blank: bool,
}

/// A clip to be written.
#[derive(Debug)]
pub struct ClipRequest {
    /// How far back the clip reaches, in nanoseconds.
    pub length: u64,
    /// The game that the clip is tagged with.
    pub game: Option<String>,
}

/// What the backend says about itself.
#[derive(Debug)]
pub struct BackendView {
    pub name: &'static str,
    pub running: bool,
    pub game_capture: bool,
    pub processes: Vec<RunningProcess>,
}

/// Owns what the user and the game watcher want, and drives the capture.
#[derive(Debug)]
pub struct Engine {
    /// The name of the capture backend.
    pub backend: &'static str,
    pub setup: Setup,
    pub wishes: Wishes,
    pub drive: Drive,
    /// The encoder actually driving the running or last capture.
    pub active: EncoderInfo,
    /// Process ids of the application audio sources the capture started with.
    pub app_audio: Vec<(String, u32)>,
    /// Times of automatic restarts after capture errors, to cap them.
    pub restarts: VecDeque<u64>,
    pub finishing: bool,
    /// A config change that needs a pipeline rebuild, deferred while a
    /// recording is active.
    pub restart_pending: bool,
    pub blank_warned: bool,
}

/// What a list of processes by application says.
pub open spec fn pid_views(list: Seq<(String, u32)>) -> Seq<(Seq<char>, u32)> {
    list.map_values(|p: (String, u32)| (p.0@, p.1))
}

impl View for Engine {
    type V = model::EngineView;

    open spec fn view(&self) -> model::EngineView {
        model::EngineView {
            backend: self.backend@,
            setup: self.setup,
            wishes: self.wishes,
            drive: self.drive@,
            active: self.active,
            app_audio: pid_views(self.app_audio@),
            restarts: self.restarts@,
            finishing: self.finishing,
            restart_pending: self.restart_pending,
            blank_warned: self.blank_warned,
        }
    }
}

/// The engine together with the sink.
pub open spec fn session(e: Engine, s: CaptureSink) -> model::Session {
    model::Session { e: e@, s }
}

impl Engine {
    /// Creates an engine that runs nothing yet. `encoders` are the registered
    /// encoders, `chosen` the one that the settings choose among them.
    pub fn new(
        config: Config,
        encoders: Vec<EncoderInfo>,
        chosen: Option<EncoderInfo>,
        monitors: Vec<MonitorInfo>,
        backend: BackendView,
    ) -> (r: Result<Engine, AppError>)
        ensures
            match chosen {
                None => r == Err::<Engine, AppError>(AppError::Capture(CaptureError::NoEncoder)),
                Some(encoder) => r matches Ok(engine) && engine@ == (model::EngineView {
                    backend: backend.name@,
                    setup: Setup {
                        config,
                        encoders,
                        preferred: encoder,
                        monitors,
                        active_game: None,
                        game_capture: backend.game_capture,
                        processes: backend.processes,
                    },
                    wishes: Wishes {
                        buffer: false,
                        auto_buffer: false,
                        recording: false,
                        auto_recording: false,
                    },
                    drive: model::DriveView {
                        starting: None,
                        generation: 0,
                        running: backend.running,
                        unavailable_audio: Set::empty(),
                        game_capture_unavailable: false,
                        notice: None,
                        last_failure: None,
                        commands: Seq::empty(),
                    },
                    active: encoder,
                    app_audio: Seq::empty(),
                    restarts: Seq::empty(),
                    finishing: false,
                    restart_pending: false,
                    blank_warned: false,
                }),
            },
    {
        let encoder = match chosen {
            Some(encoder) => encoder,
            None => return Err(AppError::Capture(CaptureError::NoEncoder)),
        };
        let engine = Engine {
            backend: backend.name,
            active: encoder.clone(),
            setup: Setup {
                config,
                encoders,
                preferred: encoder,
                monitors,
                active_game: None,
                game_capture: backend.game_capture,
                processes: backend.processes,
            },
            wishes: Wishes {
                buffer: false,
                auto_buffer: false,
                recording: false,
                auto_recording: false,
            },
            drive: Drive {
                starting: None,
                generation: 0,
                running: backend.running,
                unavailable_audio: Vec::new(),
                game_capture_unavailable: false,
                notice: None,
                last_failure: None,
                commands: Vec::new(),
            },
            app_audio: Vec::new(),
            restarts: VecDeque::new(),
            finishing: false,
            restart_pending: false,
            blank_warned: false,
        };
        assert(engine@.drive.unavailable_audio =~= Set::empty());
        assert(engine@.app_audio =~= Seq::empty());
        Ok(engine)
    }

    /// Takes note of what the backend says about itself right now.
    pub fn observe(&mut self, backend: BackendView)
        ensures
            final(self)@ == (model::EngineView {
                backend: backend.name@,
                setup: Setup {
                    game_capture: backend.game_capture,
                    processes: backend.processes,
                    ..old(self)@.setup
                },
                drive: model::DriveView { running: backend.running, ..old(self)@.drive },
                ..old(self)@
            }),
    {
        self.backend = backend.name;
        self.setup.game_capture = backend.game_capture;
        self.setup.processes = backend.processes;
        self.drive.running = backend.running;
    }

    /// Hands over what is to be done outside.
    pub fn take_commands(&mut self) -> (r: Vec<Command>)
        ensures
            r@ == old(self)@.drive.commands,
            final(self)@ == old(self)@.driving(
                model::DriveView { commands: Seq::empty(), ..old(self)@.drive },
            ),
    {
        let mut taken: Vec<Command> = Vec::new();
        std::mem::swap(&mut taken, &mut self.drive.commands);
        taken
    }

    /// The connected displays.
    pub fn monitors(&self) -> (r: &Vec<MonitorInfo>)
        ensures
            *r == self@.setup.monitors,
    {
        &self.setup.monitors
    }

    /// The capture delivers frames.
    pub fn is_capturing(&self, sink: &CaptureSink) -> (r: bool)
        ensures
            r == session(*self, *sink).capturing(),
    {
        self.drive.running && sink.failure.is_none()
    }

    /// Capture is running or on its way up: a change of source or settings
    /// needs a restart either way.
    pub fn is_engaged(&self) -> (r: bool)
        ensures
            r == self@.engaged(),
    {
        self.drive.running || self.drive.starting.is_some()
    }

    /// The replay buffer fills.
    pub fn is_buffering(&self, sink: &CaptureSink) -> (r: bool)
        ensures
            r == session(*self, *sink).buffering(),
    {
        (self.wishes.buffer || self.wishes.auto_buffer) && self.is_capturing(sink)
    }

    /// Someone wants frames.
    pub fn wants_capture(&self) -> (r: bool)
        ensures
            r == self@.wishes.any(),
    {
        self.wishes.buffer || self.wishes.auto_buffer || self.wishes.recording
    }
}

} // verus!
