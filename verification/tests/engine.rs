use openclips::config::{
    AudioConfig, AudioDeviceKind, AudioSourceConfig, AutoCapture, CaptureApi, CaptureConfig,
    CaptureMethod, CaptureScope, Config, DetectedGame, DiscordConfig, DisplaySelection,
    EncoderInfo, EncoderKind, EncoderPreference, GameAction, GameProfile, GamesConfig,
    GeneralConfig, HotkeyConfig, Language, MonitorInfo, OutputConfig, RecordingConfig,
    ReplayConfig, RunningProcess, UpdatesConfig,
};
use openclips::engine::capture::{AudioSourceSettings, AudioTrackSettings, CaptureSettings};
use openclips::engine::model::{Command, ConfigChanges, StopOutcome};
use openclips::engine::{
    BackendView, BufferReport, BufferState, Engine, RecordingState, ReplayStats,
};
use openclips::error::{AppError, CaptureError};
use openclips::sink::{next_part_path, CaptureSink, FeedStep, FilePath, SinkRecording};
use openclips::ui::events::ClipFile;

fn file(name: &str) -> FilePath {
    FilePath {
        dir: "/v".to_owned(),
        name: name.to_owned(),
    }
}

fn config() -> Config {
    Config {
        capture: CaptureConfig {
            display: DisplaySelection::Primary,
            encoder: EncoderPreference::Auto,
            fps: 60,
            bitrate_kbps: 15000,
            show_cursor: true,
            stretch: false,
            api: CaptureApi::DesktopDuplication,
            method: CaptureMethod::Display,
        },
        general: GeneralConfig {
            launch_on_startup: false,
            clip_sound: false,
            clip_toast: true,
            animations: true,
            language: Language::English,
            start_minimized: false,
            intro_done: true,
        },
        replay: ReplayConfig {
            length_seconds: 30,
            memory_cap_mb: 1024,
            start_on_launch: true,
            temp_dir: None,
        },
        updates: UpdatesConfig { check: true },
        discord: DiscordConfig::default(),
        output: OutputConfig {
            clips_dir: None,
            file_name_pattern: "{game}".to_owned(),
            clips_subfolder: String::new(),
            edited_subfolder: String::new(),
        },
        recording: RecordingConfig {
            subfolder: String::new(),
        },
        audio: AudioConfig {
            enabled: true,
            separate_tracks: false,
            bitrate_kbps: 160,
            sources: vec![
                AudioSourceConfig {
                    id: "default".to_owned(),
                    name: "Speakers".to_owned(),
                    kind: AudioDeviceKind::Output,
                    enabled: true,
                    volume: 0,
                    muted: false,
                },
                AudioSourceConfig {
                    id: "chat.exe".to_owned(),
                    name: "Chat".to_owned(),
                    kind: AudioDeviceKind::Application,
                    enabled: true,
                    volume: 0,
                    muted: false,
                },
            ],
        },
        games: GamesConfig {
            scope: CaptureScope::Global,
            profiles: Vec::new(),
        },
        hotkeys: HotkeyConfig {
            bindings: Vec::new(),
        },
    }
}

fn encoder(kind: EncoderKind, element: &str) -> EncoderInfo {
    EncoderInfo {
        kind,
        element: element.to_owned(),
    }
}

fn backend(running: bool) -> BackendView {
    BackendView {
        name: "gst",
        running,
        game_capture: true,
        processes: Vec::new(),
    }
}

fn monitor(id: &str, primary: bool) -> MonitorInfo {
    MonitorInfo {
        id: id.to_owned(),
        name: id.to_owned(),
        width: 1920,
        height: 1080,
        x: 0,
        y: 0,
        refresh_hz: 60,
        primary,
    }
}

fn engine() -> Engine {
    Engine::new(
        config(),
        vec![
            encoder(EncoderKind::Nvenc, "nvh264enc"),
            encoder(EncoderKind::Software, "x264enc"),
        ],
        Some(encoder(EncoderKind::Nvenc, "nvh264enc")),
        vec![monitor("A", true)],
        backend(false),
    )
    .expect("engine")
}

fn report() -> BufferReport {
    BufferReport {
        stats: ReplayStats {
            duration: 0,
            bytes: 0,
            looks_blank: false,
        },
        stream: None,
        audio_tracks: 0,
    }
}

fn started(commands: &[Command]) -> Option<(u64, String)> {
    commands.iter().rev().find_map(|c| match c {
        Command::Start {
            generation,
            encoder,
            ..
        } => Some((*generation, encoder.element.clone())),
        _ => None,
    })
}

#[test]
fn next_part_path_skips_taken_names_and_replaces_the_counter() {
    let first = file("Game 2026-09-07 21-05-09.mp4");
    assert_eq!(
        next_part_path(&first, &vec![]).name,
        "Game 2026-09-07 21-05-09 (2).mp4"
    );
    let taken = vec!["Game 2026-09-07 21-05-09 (2).mp4.part".to_owned()];
    assert_eq!(
        next_part_path(&first, &taken).name,
        "Game 2026-09-07 21-05-09 (3).mp4"
    );
    let second = file("Game 2026-09-07 21-05-09 (2).mp4");
    assert_eq!(
        next_part_path(&second, &taken).name,
        "Game 2026-09-07 21-05-09 (3).mp4"
    );
    let odd = file("Clip (final).mp4");
    let part = next_part_path(&odd, &taken);
    assert_eq!(part.name, "Clip (final) (2).mp4");
    assert_eq!(part.dir, "/v");
}

#[test]
fn the_next_part_is_never_taken() {
    let mut taken: Vec<String> = Vec::new();
    let mut path = file("a.mp4");
    for n in 2..12 {
        path = next_part_path(&path, &taken);
        assert_eq!(path.name, format!("a ({n}).mp4"));
        taken.push(path.name.clone());
    }
}

#[test]
fn without_an_encoder_there_is_no_engine() {
    let none = Engine::new(config(), vec![], None, vec![], backend(false));
    assert!(matches!(
        none,
        Err(AppError::Capture(CaptureError::NoEncoder))
    ));
}

#[test]
fn the_buffer_starts_and_comes_up() {
    let mut e = engine();
    let mut sink = CaptureSink::new();
    assert!(e.start_buffer(&mut sink).is_ok());
    assert!(sink.buffer_enabled && e.wants_capture() && e.is_engaged());
    assert!(matches!(e.buffer_state(&sink), BufferState::Starting));
    let commands = e.take_commands();
    assert_eq!(started(&commands), Some((1, "nvh264enc".to_owned())));
    assert!(e.take_commands().is_empty());
    e.poll_start(vec![(1, Ok(()))]);
    e.observe(backend(true));
    assert!(matches!(e.buffer_state(&sink), BufferState::Running));
    assert!(e.is_buffering(&sink));
    assert!(e.toggle_buffer(&mut sink).is_ok());
    assert!(!sink.buffer_enabled);
    assert!(e
        .take_commands()
        .iter()
        .any(|c| matches!(c, Command::StopBackend)));
}

#[test]
fn every_encoder_is_tried_in_order() {
    let mut e = engine();
    let mut sink = CaptureSink::new();
    let _ = e.start_buffer(&mut sink);
    let refused = |encoder: &str| CaptureError::EncoderStart {
        encoder: encoder.to_owned(),
        reason: "busy".to_owned(),
    };
    e.poll_start(vec![(1, Err(refused("a")))]);
    assert_eq!(
        started(&e.take_commands()),
        Some((2, "x264enc".to_owned()))
    );
    e.poll_start(vec![(2, Err(refused("b")))]);
    assert!(e.drive.starting.is_none());
    let text = e.drive.last_failure.clone().expect("failure");
    assert!(text.starts_with("no video encoder could start: "));
    assert_eq!(text.matches("(busy)").count(), 2);
}

#[test]
fn a_fallback_encoder_is_noted() {
    let mut e = engine();
    let mut sink = CaptureSink::new();
    let _ = e.start_buffer(&mut sink);
    e.poll_start(vec![(
        1,
        Err(CaptureError::EncoderStart {
            encoder: "a".to_owned(),
            reason: "busy".to_owned(),
        }),
    )]);
    e.poll_start(vec![(2, Ok(()))]);
    assert_eq!(e.active.element, "x264enc");
    let notice = e.drive.notice.clone().expect("notice");
    assert!(notice.ends_with("instead."));
}

#[test]
fn stale_results_are_ignored() {
    let mut e = engine();
    let mut sink = CaptureSink::new();
    let _ = e.start_buffer(&mut sink);
    e.poll_start(vec![(9, Ok(())), (0, Err(CaptureError::Cancelled))]);
    assert!(e.drive.starting.is_some());
    e.poll_start(vec![(1, Err(CaptureError::Cancelled))]);
    assert!(e.drive.starting.is_none());
    assert!(e.drive.last_failure.is_none());
}

#[test]
fn a_recording_starts_stops_and_reports() {
    let mut e = engine();
    let mut sink = CaptureSink::new();
    assert!(e.start_recording(&mut sink, file("r.mp4")).is_ok());
    assert!(matches!(sink.recording, SinkRecording::Pending(_)));
    assert!(matches!(
        e.recording_state(&sink),
        RecordingState::Starting
    ));
    match e.stop_recording(&mut sink) {
        StopOutcome::Report(text) => assert_eq!(text, "no frame was recorded"),
        other => panic!("unexpected {other:?}"),
    }
    let _ = e.start_recording(&mut sink, file("r.mp4"));
    sink.recording_opened(5, Ok(()));
    match e.toggle_recording(&mut sink, file("q.mp4")) {
        Ok(StopOutcome::Finish(path)) => assert_eq!(path.name, "r.mp4"),
        other => panic!("unexpected {other:?}"),
    }
    assert!(matches!(
        e.recording_state(&sink),
        RecordingState::Finishing
    ));
    e.recording_finished();
    assert!(matches!(e.recording_state(&sink), RecordingState::Idle));
    assert!(matches!(
        e.stop_recording(&mut sink),
        StopOutcome::Nothing
    ));
}

#[test]
fn restarts_are_capped() {
    let mut e = engine();
    let mut sink = CaptureSink::new();
    let _ = e.start_buffer(&mut sink);
    let failure = || CaptureError::Pipeline {
        message: "lost".to_owned(),
        element: "src".to_owned(),
    };
    for now in [1_000_000_000u64, 2_000_000_000, 3_000_000_000] {
        sink.failure = Some(failure());
        e.retire_failure(&mut sink, now);
        assert!(sink.failure.is_none());
        assert!(e.drive.starting.is_some());
    }
    sink.failure = Some(failure());
    e.retire_failure(&mut sink, 4_000_000_000);
    assert!(e.drive.starting.is_none());
    assert_eq!(
        e.drive.last_failure.as_deref(),
        Some("the capture pipeline failed: lost")
    );
    sink.failure = Some(failure());
    e.retire_failure(&mut sink, 70_000_000_000);
    assert!(e.drive.starting.is_some());
}

#[test]
fn an_audio_source_that_fails_is_left_out() {
    let mut e = engine();
    let mut sink = CaptureSink::new();
    let _ = e.start_buffer(&mut sink);
    sink.failure = Some(CaptureError::AudioSource {
        key: "output:default".to_owned(),
        message: "gone".to_owned(),
    });
    e.retire_failure(&mut sink, 1);
    assert_eq!(e.drive.unavailable_audio, vec!["output:default".to_owned()]);
    assert_eq!(
        e.drive.notice.as_deref(),
        Some("Audio device Speakers stopped working, capturing without it.")
    );
}

#[test]
fn captures_hold_live_sources_only() {
    let mut e = engine();
    e.drive.unavailable_audio = vec!["output:default".to_owned()];
    e.setup.processes = vec![RunningProcess {
        pid: 77,
        exe: "chat.exe".to_owned(),
        path: None,
        foreground: false,
    }];
    let source = |id: &str, kind: AudioDeviceKind| AudioSourceSettings {
        id: id.to_owned(),
        kind,
        volume: 0,
        muted: false,
        process: 0,
    };
    let base = CaptureSettings {
        encoder: encoder(EncoderKind::Nvenc, "nvh264enc"),
        display: DisplaySelection::Primary,
        game_capture_pid: None,
        fps: 60,
        bitrate_kbps: 15000,
        keyframe_interval: 60,
        show_cursor: true,
        stretch: false,
        audio_bitrate_kbps: 160,
        audio_tracks: vec![
            AudioTrackSettings {
                name: "Desktop".to_owned(),
                sources: vec![source("default", AudioDeviceKind::Output)],
            },
            AudioTrackSettings {
                name: "Apps".to_owned(),
                sources: vec![
                    source("chat.exe", AudioDeviceKind::Application),
                    source("gone.exe", AudioDeviceKind::Application),
                ],
            },
        ],
        temp_dir: None,
    };
    let settings = e.capture_settings(base, DisplaySelection::Monitor("A".to_owned()));
    assert_eq!(settings.audio_tracks.len(), 1);
    assert_eq!(settings.audio_tracks[0].name, "Apps");
    assert_eq!(settings.audio_tracks[0].sources.len(), 1);
    assert_eq!(settings.audio_tracks[0].sources[0].process, 77);
    assert_eq!(e.setup.app_pids(), vec![("chat.exe".to_owned(), 77)]);
}

#[test]
fn game_profiles_override_the_settings() {
    let mut e = engine();
    let mut sink = CaptureSink::new();
    assert_eq!(e.setup.effective_replay_length(), 30);
    assert_eq!(e.setup.output_dir("/v/clips"), "/v/clips");
    let game = DetectedGame {
        name: "Doom".to_owned(),
        exe: "doom.exe".to_owned(),
        pid: 5,
        path: None,
        foreground: true,
        profile: Some(GameProfile {
            exe: "doom.exe".to_owned(),
            name: "Doom".to_owned(),
            action: GameAction::Buffer,
            replay_length_seconds: Some(90),
            subfolder: Some("Shooter".to_owned()),
            display: Some(DisplaySelection::Monitor("B".to_owned())),
            capture_method: Some(CaptureMethod::Game),
        }),
    };
    let outcome = e.set_game_state(&mut sink, Some(game), AutoCapture::Buffer, file("r.mp4"));
    assert!(matches!(outcome, Ok(StopOutcome::Nothing)));
    assert!(e.wishes.auto_buffer && sink.buffer_enabled);
    assert_eq!(e.setup.game_name(), "Doom");
    assert_eq!(e.setup.effective_replay_length(), 90);
    assert_eq!(e.setup.output_dir("/v/clips"), "/v/clips/Shooter");
    assert_eq!(e.setup.effective_capture_method(), CaptureMethod::Game);
    assert_eq!(e.setup.game_capture_pid(false), Some(5));
    assert_eq!(e.setup.game_capture_pid(true), None);
    assert!(matches!(e.setup.effective_display(), DisplaySelection::Monitor(id) if id == "B"));
    let clip = e.save_clip(None);
    assert_eq!(clip.length, 90_000_000_000);
    assert_eq!(e.save_clip(Some(10_000_000_000)).length, 10_000_000_000);
    let gone = e.set_game_state(&mut sink, None, AutoCapture::Nothing, file("r.mp4"));
    assert!(gone.is_ok());
    assert!(!e.wishes.auto_buffer);
}

#[test]
fn a_recording_defers_a_restart() {
    let mut e = engine();
    let mut sink = CaptureSink::new();
    let _ = e.start_buffer(&mut sink);
    e.poll_start(vec![(1, Ok(()))]);
    e.observe(backend(true));
    let _ = e.start_recording(&mut sink, file("r.mp4"));
    let _ = e.take_commands();
    let changes = ConfigChanges {
        hotkeys: false,
        replay_limits: false,
        capture_restart: true,
        audio_levels: false,
    };
    let chosen = Some(encoder(EncoderKind::Nvenc, "nvh264enc"));
    assert!(matches!(
        e.apply_config(&mut sink, config(), changes, chosen),
        Ok(false)
    ));
    assert!(e.restart_pending);
    assert!(started(&e.take_commands()).is_none());
    let _ = e.stop_recording(&mut sink);
    assert!(!e.restart_pending);
    assert!(started(&e.take_commands()).is_some());
}

#[test]
fn new_displays_are_noticed() {
    let mut e = engine();
    let mut sink = CaptureSink::new();
    assert!(!e.refresh_monitors(&mut sink, Some(vec![monitor("A", true)])));
    assert!(!e.refresh_monitors(&mut sink, None));
    assert!(e.refresh_monitors(
        &mut sink,
        Some(vec![monitor("A", true), monitor("B", false)])
    ));
    assert_eq!(e.monitors().len(), 2);
}

#[test]
fn the_status_tells_the_buffer_and_the_recording() {
    let mut e = engine();
    let mut sink = CaptureSink::new();
    let _ = e.start_buffer(&mut sink);
    let status = e.status(&mut sink, vec![], 0, report(), report());
    assert!(matches!(status.buffer, BufferState::Starting));
    assert_eq!(status.backend, "gst");
    assert!(matches!(status.recording, RecordingState::Idle));
    assert_eq!(status.replay_length, 30);
}

#[test]
fn a_recording_is_fed_from_the_first_keyframe_on() {
    let mut sink = CaptureSink::new();
    assert!(matches!(sink.feed_recording(true, true), FeedStep::Skip));
    sink.recording = SinkRecording::Pending(file("r.mp4"));
    assert!(matches!(sink.feed_recording(false, true), FeedStep::Skip));
    assert!(!sink.feed_recording_audio());
    match sink.feed_recording(true, true) {
        FeedStep::Open(path) => assert_eq!(path.name, "r.mp4"),
        other => panic!("unexpected {other:?}"),
    }
    sink.recording_opened(100, Ok(()));
    assert!(matches!(sink.feed_recording(false, true), FeedStep::Push));
    assert!(sink.feed_recording_audio());
    sink.recording_pushed(400, Ok(()));
    assert!(matches!(
        sink.recording,
        SinkRecording::Active {
            first: 100,
            last: 400,
            ..
        }
    ));
    let part = sink.rotate_recording(&vec![]);
    assert_eq!(part.expect("rotated").name, "r.mp4");
    match &sink.recording {
        SinkRecording::Pending(path) => assert_eq!(path.name, "r (2).mp4"),
        other => panic!("unexpected {other:?}"),
    }
    sink.on_error(CaptureError::NoEncoder);
    assert!(sink.failure.is_some());
}

#[test]
fn a_failed_write_fails_the_recording() {
    let mut sink = CaptureSink::new();
    sink.recording = SinkRecording::Pending(file("r.mp4"));
    sink.recording_opened(1, Err(CaptureError::EmptyBuffer));
    assert!(matches!(sink.recording, SinkRecording::Failed(_)));
    sink.recording = SinkRecording::Active {
        path: file("r.mp4"),
        first: 0,
        last: 0,
    };
    sink.recording_audio_pushed(Err(CaptureError::EmptyBuffer));
    assert!(matches!(sink.recording, SinkRecording::Failed(_)));
}

#[test]
fn a_lost_display_moves_to_the_primary() {
    let mut settings = config();
    settings.capture.display = DisplaySelection::Monitor("B".to_owned());
    let mut e = Engine::new(
        settings,
        vec![encoder(EncoderKind::Nvenc, "nvh264enc")],
        Some(encoder(EncoderKind::Nvenc, "nvh264enc")),
        vec![monitor("A", true), monitor("B", false)],
        backend(false),
    )
    .expect("engine");
    let mut sink = CaptureSink::new();
    let _ = e.start_buffer(&mut sink);
    e.poll_start(vec![(1, Ok(()))]);
    e.observe(backend(true));
    let _ = e.take_commands();
    assert!(e.refresh_monitors(&mut sink, Some(vec![monitor("A", true)])));
    assert_eq!(
        e.drive.notice.as_deref(),
        Some("Display B is not connected, capturing the primary display instead.")
    );
    let primary = e.take_commands().into_iter().any(|c| {
        matches!(
            c,
            Command::Start {
                display: DisplaySelection::Primary,
                ..
            }
        )
    });
    assert!(primary);
}

#[test]
fn a_recording_is_left_alone_when_displays_change() {
    let mut e = engine();
    let mut sink = CaptureSink::new();
    let _ = e.start_recording(&mut sink, file("r.mp4"));
    e.poll_start(vec![(1, Ok(()))]);
    e.observe(backend(true));
    let _ = e.take_commands();
    let _ = e.refresh_monitors(&mut sink, Some(vec![monitor("C", true)]));
    assert!(e.take_commands().is_empty());
    assert!(matches!(sink.recording, SinkRecording::Pending(_)));
}

#[test]
fn capture_lasts_as_long_as_it_is_wanted() {
    let mut e = engine();
    let mut sink = CaptureSink::new();
    assert!(!e.is_engaged());
    let _ = e.start_buffer(&mut sink);
    let _ = e.start_recording(&mut sink, file("r.mp4"));
    assert!(e.is_engaged());
    e.stop_buffer(&mut sink);
    assert!(e.is_engaged());
    let _ = e.stop_recording(&mut sink);
    assert!(!e.is_engaged());
}

#[test]
fn capture_goes_on_without_a_failed_device() {
    let mut e = engine();
    let mut sink = CaptureSink::new();
    let _ = e.start_buffer(&mut sink);
    e.poll_start(vec![(1, Ok(()))]);
    e.observe(backend(true));
    let _ = e.take_commands();
    sink.failure = Some(CaptureError::AudioSource {
        key: "output:default".to_owned(),
        message: "gone".to_owned(),
    });
    e.retire_failure(&mut sink, 1);
    assert!(e.drive.starting.is_some() && e.drive.last_failure.is_none());
    assert!(started(&e.take_commands()).is_some());
    assert!(e.wants_capture());
}

#[test]
fn a_lost_display_of_the_game_moves_to_the_primary() {
    let mut e = Engine::new(
        config(),
        vec![encoder(EncoderKind::Nvenc, "nvh264enc")],
        Some(encoder(EncoderKind::Nvenc, "nvh264enc")),
        vec![monitor("A", true), monitor("B", false)],
        backend(false),
    )
    .expect("engine");
    let mut sink = CaptureSink::new();
    let game = DetectedGame {
        name: "Doom".to_owned(),
        exe: "doom.exe".to_owned(),
        pid: 5,
        path: None,
        foreground: true,
        profile: Some(GameProfile {
            exe: "doom.exe".to_owned(),
            name: "Doom".to_owned(),
            action: GameAction::Buffer,
            replay_length_seconds: None,
            subfolder: None,
            display: Some(DisplaySelection::Monitor("B".to_owned())),
            capture_method: None,
        }),
    };
    let _ = e.set_game_state(&mut sink, Some(game), AutoCapture::Buffer, file("r.mp4"));
    let generation = started(&e.take_commands()).expect("start").0;
    e.poll_start(vec![(generation, Ok(()))]);
    e.observe(backend(true));
    assert!(e.refresh_monitors(&mut sink, Some(vec![monitor("A", true)])));
    assert_eq!(e.monitors().len(), 1);
    let primary = e.take_commands().into_iter().any(|c| {
        matches!(
            c,
            Command::Start {
                display: DisplaySelection::Primary,
                ..
            }
        )
    });
    assert!(primary);
}

#[test]
fn the_first_encoder_that_starts_is_shown() {
    let mut e = engine();
    let mut sink = CaptureSink::new();
    let _ = e.start_buffer(&mut sink);
    let _ = e.take_commands();
    let refused = CaptureError::EncoderStart {
        encoder: "a".to_owned(),
        reason: "busy".to_owned(),
    };
    let reports = vec![(1, Err(refused)), (2, Ok(()))];
    let status = e.status(&mut sink, reports, 0, report(), report());
    assert_eq!(status.encoder.element, "x264enc");
    let notice = status.notice.expect("notice");
    assert!(notice.contains(" could not start, using "));
    assert!(notice.ends_with(" instead."));
}

#[test]
fn a_start_that_every_encoder_refuses_is_shown() {
    let mut e = engine();
    let mut sink = CaptureSink::new();
    let _ = e.start_buffer(&mut sink);
    let refused = || CaptureError::EncoderStart {
        encoder: "a".to_owned(),
        reason: "busy".to_owned(),
    };
    let reports = vec![(1, Err(refused())), (2, Err(refused()))];
    let status = e.status(&mut sink, reports, 0, report(), report());
    assert!(matches!(
        status.buffer,
        BufferState::Failed(text) if text.starts_with("no video encoder could start: ")
    ));
}

#[test]
fn a_restart_shows_the_cleared_buffer() {
    let mut e = engine();
    let mut sink = CaptureSink::new();
    let _ = e.start_buffer(&mut sink);
    e.poll_start(vec![(1, Ok(()))]);
    e.observe(backend(true));
    let _ = e.take_commands();
    let mut full = report();
    full.stats.bytes = 99;
    let running = e.status(&mut sink, vec![], 0, full, report());
    assert_eq!(running.report.stats.bytes, 99);
    assert!(matches!(running.buffer, BufferState::Running));
    sink.failure = Some(CaptureError::Pipeline {
        message: "lost".to_owned(),
        element: "src".to_owned(),
    });
    let mut full = report();
    full.stats.bytes = 99;
    let restarted = e.status(&mut sink, vec![], 1, full, report());
    assert_eq!(restarted.report.stats.bytes, 0);
    assert!(matches!(restarted.buffer, BufferState::Starting));
    assert_eq!(
        restarted.notice.as_deref(),
        Some("Capture restarted after an error (lost).")
    );
}

#[test]
fn refused_restarts_do_not_count() {
    let mut e = engine();
    let second = 1_000_000_000u64;
    let asked: Vec<bool> = [0, 10, 20, 30, 59, 60, 61, 71, 72]
        .iter()
        .map(|at| e.allow_restart(at * second))
        .collect();
    assert_eq!(
        asked,
        [true, true, true, false, false, false, true, true, false]
    );
}

#[test]
fn an_empty_buffer_saves_nothing() {
    let e = engine();
    assert_eq!(e.save_clip(None).length, 30_000_000_000);
    assert_eq!(e.save_clip(Some(0)).length, 30_000_000_000);
    assert_eq!(e.save_clip(Some(99_000_000_000)).length, 30_000_000_000);
    assert_eq!(e.save_clip(Some(u128::MAX)).length, 30_000_000_000);
    assert_eq!(e.save_clip(Some(7_000_000_000)).length, 7_000_000_000);
    assert_eq!(e.save_clip(Some(2_500_000_000)).length, 2_500_000_000);
    assert_eq!(e.save_clip(Some(1)).length, 1);
    assert_eq!(
        e.save_clip(None).begin(false).err().as_deref(),
        Some("the replay buffer is empty, nothing to save")
    );
    let request = e.save_clip(Some(7_000_000_000)).begin(true).expect("request");
    let clip = ClipFile {
        path: "/v/c.mp4".to_owned(),
        bytes: 1,
        duration: 2,
        game: Some("stale".to_owned()),
        audio_tracks: vec![],
    };
    let written = request.finish(Ok(clip)).expect("clip");
    assert_eq!(written.game, None);
    assert_eq!(
        e.save_clip(None).finish(Err(CaptureError::NoEncoder)).err(),
        Some(CaptureError::NoEncoder.message())
    );
}

#[test]
fn games_choose_their_folder() {
    let mut profile = GameProfile {
        exe: "doom.exe".to_owned(),
        name: "Doom".to_owned(),
        action: GameAction::Recording,
        replay_length_seconds: None,
        subfolder: None,
        display: None,
        capture_method: None,
    };
    assert_eq!(profile.folder_below("/v/rec"), "/v/rec");
    profile.subfolder = Some("  ".to_owned());
    assert_eq!(profile.folder_below("/v/rec"), "/v/rec");
    profile.subfolder = Some(" Shooter ".to_owned());
    assert_eq!(profile.folder_below("/v/rec"), "/v/rec/Shooter");
    profile.subfolder = Some("/elsewhere".to_owned());
    assert_eq!(profile.folder_below("/v/rec"), "/elsewhere");
}
