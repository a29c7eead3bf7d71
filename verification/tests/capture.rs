use openclips::config::{
    AudioDeviceKind, DisplaySelection, EncoderInfo, EncoderKind, MonitorInfo,
};
use openclips::encoders::{
    configure, describe_error, discover, linux_encoders, set_number, spec_for, EncoderTuning,
    NumberType, Setting, TypedNumber, Value,
};
use openclips::engine::capture::AudioSourceSettings;
use openclips::error::{AppError, CaptureError};
use openclips::linux::audio::{list_devices, make_source, ListedDevice, SourceDevice};
use openclips::linux::monitors::{
    ensure_primary, find_primary, query, refresh_rate, ListedMonitor, Mode,
};
use openclips::linux::portal::{
    accept_streams, choose_cursor, choose_sources, load_token, negotiate, token_path,
    token_to_store, CastStream, CursorMode, CursorModes, Failure, Sources,
};
use openclips::linux::video::{build_head, HeadElement, HeadSettings, Region, Size};
use openclips::pipeline::{
    before_first_frame, build_chain, check_framework, classify_error, env_flag, refused_error,
    running_time, spawn_error, start_attempts, start_error, wait_for_first_frame, watch_message,
    BackendState, BufferFields, BusMessage, CapsFields, FrameTimes, SampleCaps, SampleHandler,
    StartLoop, StartStep, StreamTracker, VideoStream,
};
use openclips::linux::native::{
    aac_encoders, backend_name, extract_png, player_video_chain, required_elements, PictureElement,
};
use openclips::playback::{
    check_player, frame_size, playback_news, route_track, AudioMix, PlaybackNews, PlayerState,
    TrackRoute,
};
use openclips::platform::{create_backend, Platform};
use vstd::hash_map::StringHashMap;

fn monitor(id: &str, x: i32, width: u32, primary: bool) -> MonitorInfo {
    MonitorInfo {
        id: id.to_owned(),
        name: format!("Display {id}"),
        width,
        height: 1081,
        x,
        y: -5,
        refresh_hz: 60,
        primary,
    }
}

fn head(display: DisplaySelection, stretch: bool) -> HeadSettings {
    HeadSettings {
        game_capture_pid: None,
        fps: 0,
        show_cursor: true,
        stretch,
        display,
    }
}

fn text(list: &[&str]) -> Vec<String> {
    list.iter().map(|s| s.to_string()).collect()
}

#[test]
fn rates_are_rounded() {
    assert_eq!(refresh_rate(148_500_000, 2200, 1125), 60);
    assert_eq!(refresh_rate(148_351_648, 2200, 1125), 60);
    assert_eq!(refresh_rate(3, 1, 2), 2);
    assert_eq!(refresh_rate(5, 0, 9), 0);
}

#[test]
fn the_layout_names_displays_and_marks_a_primary_one() {
    let listed = vec![
        ListedMonitor {
            name: b"DP-1".to_vec(),
            width: 2560,
            height: 1440,
            x: -2560,
            y: 0,
            primary: false,
            mode: Some(7),
        },
        ListedMonitor {
            name: b"HDMI\xff".to_vec(),
            width: 1920,
            height: 1080,
            x: 0,
            y: 0,
            primary: false,
            mode: None,
        },
    ];
    let modes = vec![Mode {
        id: 7,
        dot_clock: 148_500_000,
        htotal: 2200,
        vtotal: 1125,
    }];
    let found = query(&listed, &modes);
    assert_eq!(found.len(), 2);
    assert_eq!(found[0].id, "DP-1");
    assert_eq!(found[0].refresh_hz, 60);
    assert_eq!(found[0].x, -2560);
    assert!(found[0].primary && !found[1].primary);
    assert_eq!(found[1].name, "HDMI\u{fffd}");
    assert_eq!(found[1].refresh_hz, 0);
    assert!(query(&vec![], &modes).is_empty());
}

#[test]
fn a_primary_display_is_left_alone() {
    let mut list = vec![monitor("A", 0, 1, false), monitor("B", 0, 1, true)];
    ensure_primary(&mut list);
    assert!(!list[0].primary);
    assert_eq!(find_primary(&list).map(|m| m.id.as_str()), Some("B"));
}

#[test]
fn the_head_captures_a_display() {
    let monitors = vec![monitor("A", 0, 1921, true), monitor("B", 1921, 800, false)];
    let built = build_head(
        &head(DisplaySelection::Monitor("B".to_owned()), true),
        true,
        &monitors,
    )
    .expect("head");
    assert_eq!(built.description, "Display B (800x1080)");
    assert_eq!(
        built.elements[0],
        HeadElement::Source {
            show_pointer: true,
            region: Some(Region {
                startx: 1921,
                starty: 0,
                endx: 2720,
                endy: 1079,
            }),
        }
    );
    assert_eq!(built.elements[1], HeadElement::RateFilter(1));
    assert_eq!(
        built.elements.last(),
        Some(&HeadElement::OutFilter(Some(Size {
            width: 800,
            height: 1080,
        })))
    );
    let whole = build_head(&head(DisplaySelection::Primary, true), true, &vec![]).expect("head");
    assert_eq!(whole.description, "the whole X11 screen");
    assert_eq!(whole.elements.len(), 6);
    match build_head(
        &head(DisplaySelection::Monitor("Z".to_owned()), false),
        true,
        &monitors,
    ) {
        Err(CaptureError::MonitorNotFound(id)) => assert_eq!(id, "Z"),
        other => panic!("unexpected {other:?}"),
    }
}

#[test]
fn endpoints_are_listed_once() {
    let listed = |id: &str, monitor: bool| ListedDevice {
        id: Some(id.to_owned()),
        is_monitor: monitor,
        name: "Monitor of Speakers".to_owned(),
    };
    let devices = list_devices(&vec![
        listed("out.monitor", false),
        listed("out.monitor", true),
        listed("mic", false),
        listed("", false),
        ListedDevice {
            id: None,
            is_monitor: false,
            name: "x".to_owned(),
        },
    ]);
    let found: Vec<_> = devices.iter().filter(|d| d.id != "default").collect();
    assert_eq!(found.len(), 2);
    assert_eq!(found[0].name, "Speakers");
    assert_eq!(found[0].kind, AudioDeviceKind::Output);
    assert_eq!(found[1].kind, AudioDeviceKind::Input);
}

#[test]
fn sources_name_their_device() {
    let source = |id: &str, kind: AudioDeviceKind| AudioSourceSettings {
        id: id.to_owned(),
        kind,
        volume: 0,
        muted: false,
        process: 0,
    };
    assert!(matches!(
        make_source(&source("default", AudioDeviceKind::Output)),
        Ok(SourceDevice::DefaultMonitor)
    ));
    assert!(matches!(
        make_source(&source("default", AudioDeviceKind::Input)),
        Ok(SourceDevice::Default)
    ));
    assert!(matches!(
        make_source(&source("mic", AudioDeviceKind::Input)),
        Ok(SourceDevice::Device(id)) if id == "mic"
    ));
    assert!(make_source(&source("a.exe", AudioDeviceKind::Application)).is_err());
}

#[test]
fn sharing_asks_for_what_there_is() {
    assert_eq!(
        choose_sources(Some(Sources {
            monitor: true,
            window: false,
        })),
        Sources {
            monitor: true,
            window: false,
        }
    );
    let both = CursorModes {
        hidden: true,
        embedded: true,
    };
    assert_eq!(choose_cursor(true, Some(both)), Some(CursorMode::Embedded));
    assert_eq!(choose_cursor(false, Some(both)), Some(CursorMode::Hidden));
    let request = negotiate(true, None, Some(both), Some("t".to_owned()));
    assert_eq!(request.token.as_deref(), Some("t"));
    assert_eq!(token_to_store(Some("n".to_owned()), Some("o")).as_deref(), Some("n"));
    assert_eq!(token_to_store(Some("o".to_owned()), Some("o")), None);
    assert_eq!(load_token(" abc\n").as_deref(), Some("abc"));
    assert_eq!(load_token(" \n"), None);
    assert_eq!(
        token_path(Some("/s"), None).as_deref(),
        Some("/s/openclips/screencast-token")
    );
    assert_eq!(
        token_path(Some("rel"), Some("/h")).as_deref(),
        Some("/h/.local/state/openclips/screencast-token")
    );
    assert_eq!(token_path(None, None), None);
}

#[test]
fn sharing_that_is_refused_is_an_error() {
    match accept_streams(Err("denied".to_owned())) {
        Err(Failure::Refused(CaptureError::PipelineBuild(text))) => {
            assert_eq!(text, "screen sharing was not allowed: denied");
        }
        other => panic!("unexpected {other:?}"),
    }
    assert!(matches!(
        accept_streams(Ok(vec![])),
        Err(Failure::Refused(CaptureError::PipelineBuild(_)))
    ));
    let stream = accept_streams(Ok(vec![CastStream {
        node_id: 9,
        size: None,
    }]));
    assert!(matches!(stream, Ok(s) if s.node_id == 9));
}

#[test]
fn one_encoder_per_kind_is_found() {
    let all = linux_encoders();
    let found = discover(
        &all,
        &text(&["openh264enc", "x264enc", "vaapih264enc", "vah264lpenc"]),
    );
    let elements: Vec<&str> = found.iter().map(|e| e.element.as_str()).collect();
    assert_eq!(elements, ["vah264lpenc", "x264enc"]);
    assert!(spec_for(&all, "nvh264enc").is_some());
    assert!(spec_for(&all, "mystery").is_none());
}

#[test]
fn encoders_get_their_bitrate() {
    let tuning = EncoderTuning {
        bitrate_kbps: 20_000,
        keyframe_interval: 120,
    };
    for spec in linux_encoders() {
        let bitrate = if spec.element == "openh264enc" {
            20_000_000
        } else {
            20_000
        };
        assert!(configure(spec, tuning)
            .iter()
            .any(|s: &Setting| s.name == "bitrate"
                && matches!(s.value, Value::Number(n) if n == bitrate)));
    }
}

#[test]
fn numbers_fit_their_property() {
    assert_eq!(set_number(NumberType::U32, -1), TypedNumber::U32(0));
    assert_eq!(
        set_number(NumberType::I32, 5_000_000_000),
        TypedNumber::I32(i32::MAX)
    );
    assert_eq!(set_number(NumberType::U64, -9), TypedNumber::U64(0));
    assert_eq!(set_number(NumberType::I64, -9), TypedNumber::I64(-9));
    assert_eq!(set_number(NumberType::F64, 3), TypedNumber::F64(3));
}

#[test]
fn errors_are_one_line() {
    assert_eq!(describe_error("Broken", ""), "Broken");
    assert_eq!(
        describe_error("Broken", "gstfoo.c(12): run ():\nno such device"),
        "Broken (no such device)"
    );
}

#[test]
fn a_chain_ends_in_a_sink() {
    let encoder = EncoderInfo {
        kind: EncoderKind::Software,
        element: "x264enc".to_owned(),
    };
    let tuning = EncoderTuning {
        bitrate_kbps: 1,
        keyframe_interval: 1,
    };
    let chain = build_chain(vec![], &linux_encoders(), &encoder, tuning, true).expect("chain");
    let names: Vec<&str> = chain.iter().map(|e| e.element.as_str()).collect();
    assert_eq!(names, ["queue", "x264enc", "h264parse", "appsink"]);
    let sink: Vec<&str> = chain[3].settings.iter().map(|s| s.name).collect();
    assert_eq!(sink, ["caps", "sync", "max-buffers", "drop"]);
    assert!(matches!(
        chain[3].settings[0].value,
        Value::Caps("video/x-h264, stream-format=byte-stream, alignment=au, profile=high")
    ));
    assert!(matches!(chain[3].settings[2].value, Value::Number(8)));
    let unknown = EncoderInfo {
        kind: EncoderKind::Software,
        element: "mystery".to_owned(),
    };
    assert!(matches!(
        build_chain(vec![], &linux_encoders(), &unknown, tuning, false),
        Err(CaptureError::MissingElement(name)) if name == "mystery"
    ));
}

#[test]
fn a_framework_without_parts_is_refused() {
    let all = text(&[
        "ximagesrc", "videorate", "h264parse", "mp4mux", "appsink", "appsrc", "audiomixer",
        "aacparse",
    ]);
    let encoders = vec![EncoderInfo {
        kind: EncoderKind::Software,
        element: "x264enc".to_owned(),
    }];
    assert!(check_framework(text(&["ximagesrc"]), &all, true, &encoders).is_ok());
    assert!(matches!(
        check_framework(text(&["pipewiresrc"]), &all, true, &encoders),
        Err(CaptureError::MissingElement(name)) if name == "pipewiresrc"
    ));
    assert!(matches!(
        check_framework(vec![], &all, false, &encoders),
        Err(CaptureError::NoAudioEncoder)
    ));
    assert!(matches!(
        check_framework(vec![], &all, true, &vec![]),
        Err(CaptureError::NoEncoder)
    ));
}

#[test]
fn hardware_starts_are_repeated() {
    assert_eq!(start_attempts(true, false), 3);
    assert_eq!(start_attempts(false, false), 1);
    let mut start = StartLoop::new(true, false);
    assert!(matches!(start.before_attempt(false), StartStep::Attempt));
    assert!(matches!(
        start.before_attempt(true),
        StartStep::Done(Err(CaptureError::Cancelled))
    ));
    assert!(matches!(start.after_attempt(Ok(())), StartStep::Done(Ok(()))));
}

#[test]
fn bus_errors_find_their_source() {
    let mut names: StringHashMap<String> = StringHashMap::new();
    names.insert("src0".to_owned(), "output:default".to_owned());
    assert!(matches!(
        classify_error("src0".to_owned(), "gone".to_owned(), &names),
        CaptureError::AudioSource { key, .. } if key == "output:default"
    ));
    assert!(matches!(
        watch_message(
            BusMessage::Error {
                element: "enc".to_owned(),
                message: "m".to_owned(),
            },
            &names
        ),
        Some(CaptureError::Pipeline { element, .. }) if element == "enc"
    ));
    assert!(watch_message(BusMessage::Other, &names).is_none());
    assert!(watch_message(BusMessage::Eos, &names).is_some());
    let late = wait_for_first_frame(BusMessage::Nothing, &names, true, 8).expect("late");
    assert_eq!(
        late.message(),
        "the capture pipeline failed: no frame was produced within 8 seconds"
    );
    assert!(wait_for_first_frame(BusMessage::Nothing, &names, false, 8).is_none());
    assert!(matches!(before_first_frame(true, true), Some(Ok(()))));
    assert!(matches!(
        before_first_frame(false, true),
        Some(Err(CaptureError::Cancelled))
    ));
    assert!(before_first_frame(false, false).is_none());
}

#[test]
fn start_errors_name_the_encoder() {
    let encoder = EncoderInfo {
        kind: EncoderKind::Nvenc,
        element: "nvh264enc".to_owned(),
    };
    let error = start_error(
        &encoder,
        CaptureError::Pipeline {
            message: "m".to_owned(),
            element: "e".to_owned(),
        },
    );
    assert!(matches!(error, CaptureError::EncoderStart { reason, .. } if reason == "m"));
    assert!(matches!(
        start_error(&encoder, CaptureError::Cancelled),
        CaptureError::Cancelled
    ));
    assert!(matches!(
        refused_error(&encoder, "x"),
        CaptureError::EncoderStart { reason, .. } if reason == "could not start capture: x"
    ));
    assert_eq!(
        spawn_error("x").message(),
        "failed to build the capture pipeline: could not spawn the capture start thread: x"
    );
}

#[test]
fn streams_are_announced_when_they_change() {
    let mut tracker = StreamTracker::new();
    let fields = Some(CapsFields {
        width: Some(1920),
        height: Some(1080),
        framerate: Some((60, 1)),
    });
    assert_eq!(
        tracker.update("a", fields),
        Some(VideoStream {
            width: 1920,
            height: 1080,
            fps_num: 60,
            fps_den: 1,
        })
    );
    assert_eq!(tracker.update("a", fields), None);
    assert!(tracker.update("b", fields).is_some());
    assert_eq!(tracker.update("c", None), None);
    assert!(tracker.current.is_some());
}

#[test]
fn small_decisions() {
    assert!(env_flag(Some("1"), false));
    assert!(!env_flag(Some("0"), true));
    assert!(env_flag(Some("yes"), true));
    assert!(!env_flag(None, false));
    assert_eq!(running_time(Some(3), None), 3);
    assert_eq!(running_time(Some(3), Some(5)), 5);
    assert_eq!(running_time(None, None), 0);
    let mut state = BackendState {
        running: false,
        starting: false,
    };
    assert!(state.may_start().is_ok());
    assert!(state.start_finished(Ok(()), false).is_ok());
    assert!(matches!(state.may_start(), Err(CaptureError::AlreadyRunning)));
    state.stop();
    assert!(matches!(
        state.start_finished(Ok(()), true),
        Err(CaptureError::Cancelled)
    ));
    assert!(!state.running);
}

#[test]
fn tracks_are_mixed_by_name() {
    let mut mix = AudioMix::new();
    mix.attach_track("b".to_owned(), 1);
    mix.attach_track("a".to_owned(), 2);
    mix.attach_track("b".to_owned(), 3);
    mix.set_track_enabled(1, false);
    assert_eq!(mix.mutes(), vec![(2, false), (1, true), (3, false)]);
}

#[test]
fn frames_have_a_size() {
    assert_eq!(frame_size(2, 3, 24), Some((2, 3, 24)));
    assert_eq!(frame_size(2, 3, 23), None);
    assert_eq!(frame_size(-2, 3, 0), Some((0, 3, 0)));
    let mut player = PlayerState::new();
    assert!(matches!(player.load(false), Err(CaptureError::Playback(_))));
    assert!(player.load(true).is_ok());
    player.play(true);
    assert!(player.playing);
    player.pause(true);
    assert!(!player.playing);
    player.stop();
    assert!(!player.loaded);
}

#[test]
fn only_windows_has_a_backend() {
    assert!(create_backend(Platform::Windows).is_ok());
    assert!(matches!(
        create_backend(Platform::Linux),
        Err(CaptureError::Unsupported(name)) if name == "Linux"
    ));
    assert_eq!(Platform::Unsupported.name(), "unsupported");
}

#[test]
fn errors_read_well() {
    let cases = [
        (CaptureError::Unsupported("X".to_owned()), "capture is not supported on X"),
        (
            CaptureError::FrameworkInit("r".to_owned()),
            "the media framework failed to initialize: r",
        ),
        (CaptureError::NoEncoder, "no usable video encoder was found"),
        (CaptureError::NoAudioEncoder, "no AAC audio encoder was found"),
        (
            CaptureError::MonitorNotFound("D".to_owned()),
            "display \"D\" was not found",
        ),
        (CaptureError::AlreadyRunning, "capture is already running"),
        (CaptureError::Cancelled, "the capture start was cancelled"),
        (
            CaptureError::EmptyBuffer,
            "the replay buffer is empty, nothing to save",
        ),
        (CaptureError::Playback("p".to_owned()), "playback failed: p"),
        (CaptureError::GameCapture("g".to_owned()), "game capture failed: g"),
    ];
    for (error, expected) in cases {
        assert_eq!(error.message(), expected);
        assert_eq!(AppError::Capture(error).message(), expected);
    }
    assert_eq!(AppError::Ui("u".to_owned()).message(), "UI error: u");
    assert_eq!(AppError::Hotkey("h".to_owned()).message(), "hotkey error: h");
}

#[test]
fn samples_announce_streams_and_hand_frames_on() {
    let mut handler = SampleHandler::new();
    let caps = || {
        Some(SampleCaps {
            text: "video/x-h264, width=640".to_owned(),
            fields: Some(CapsFields {
                width: Some(640),
                height: Some(-1),
                framerate: None,
            }),
        })
    };
    let step = handler.on_sample(caps(), None);
    assert_eq!(
        step.stream,
        Some(VideoStream {
            width: 640,
            height: 0,
            fps_num: 0,
            fps_den: 1,
        })
    );
    assert!(step.frame.is_none() && !handler.first_frame);
    let buffer = BufferFields {
        pts: Some(50),
        pts_running: Some(40),
        dts: None,
        dts_running: Some(7),
        duration: Some(3),
        delta_unit: false,
    };
    let step = handler.on_sample(caps(), Some(buffer));
    assert_eq!(step.stream, None);
    assert_eq!(
        step.frame,
        Some(FrameTimes {
            pts: 40,
            dts: None,
            duration: Some(3),
            keyframe: true,
        })
    );
    assert!(handler.first_frame);
    let later = BufferFields {
        dts: Some(60),
        dts_running: None,
        delta_unit: true,
        ..buffer
    };
    let frame = handler.on_sample(None, Some(later)).frame.expect("frame");
    assert_eq!(frame.dts, Some(60));
    assert!(!frame.keyframe);
}

#[test]
fn playback_routes_tracks_and_reads_its_bus() {
    let text = |list: &[&str]| -> Vec<String> { list.iter().map(|s| s.to_string()).collect() };
    let all = text(&["volume", "uridecodebin", "audiomixer", "autoaudiosink"]);
    assert!(check_player(&all).is_ok());
    assert!(matches!(
        check_player(&text(&["uridecodebin", "volume"])),
        Err(CaptureError::MissingElement(name)) if name == "audiomixer"
    ));
    assert_eq!(route_track("video/x-raw", false), TrackRoute::Picture);
    assert_eq!(route_track("video/x-raw", true), TrackRoute::Ignore);
    assert_eq!(route_track("audio/x-raw", true), TrackRoute::Mix);
    assert_eq!(route_track("text/x-raw", false), TrackRoute::Ignore);
    assert!(matches!(
        playback_news(BusMessage::Error {
            element: "dec".to_owned(),
            message: "broken".to_owned(),
        }),
        PlaybackNews::Failed(reason) if reason == "broken"
    ));
    assert!(matches!(playback_news(BusMessage::Eos), PlaybackNews::Finished));
    assert!(matches!(playback_news(BusMessage::Other), PlaybackNews::Nothing));
}

#[test]
fn linux_names_what_it_needs() {
    assert_eq!(backend_name(), "Linux (GStreamer)");
    assert_eq!(
        required_elements(),
        vec!["videoconvert".to_owned(), "videoscale".to_owned(), "pulsesrc".to_owned()]
    );
    assert_eq!(aac_encoders()[1], "avenc_aac");
    assert_eq!(
        player_video_chain(1280),
        vec![
            PictureElement::Scale,
            PictureElement::Convert,
            PictureElement::Filter {
                min_width: 16,
                max_width: 1280,
            },
        ]
    );
    assert!(matches!(
        extract_png("/g/doom"),
        CaptureError::Media { path, reason }
            if path == "/g/doom" && reason == "executables have no embedded icon on Linux"
    ));
}
