use openclips::config::{
    DetectedGame, DiscordConfig, EncoderInfo, EncoderKind, GameAction, GameProfile, GeneralConfig,
    HotkeyActionKind, HotkeyBinding, Hotkey, Key, KeyModifiers, Language, RunningProcess,
};
use openclips::engine::{
    BufferReport, BufferState, EngineStatus, RecordingState, ReplayStats, StreamInfo,
};
use openclips::error::AppError;
use openclips::games::{icon_file_name, GameService, Icon};
use openclips::i18n::{load_catalog, Catalogs, Translator};
use openclips::library::{ClipDirs, ClipKind, ClipRecord, LibraryService, Moment};
use openclips::paths::with_extension;
use openclips::player::{PlayerController, PlayerView, Progress, Request};
use openclips::settings::games::GameProfileRow;
use openclips::sink::FilePath;
use openclips::ui::clip::{
    compress_clip, deleted, edit_finished, edit_not_started, edit_result, format_precise, kept_tracks,
    open_clip, renamed, save_trim, skip_target, start_edit, wanted_range, CompressPreset,
    EditSetup, Selection, Sound, TrimMode, TrimRange,
};
use openclips::ui::events::{handle_event, ClipFile, SavedClip, Session, StatusTexts, UiEvent};
use openclips::ui::gallery::{
    describe_count, game_list, page_filter, recent_clips, selected_game, update_storage,
    DiskSpace, GalleryPage,
};
use openclips::ui::games::{
    add_game, add_running_game, app_candidates, apply_steam_result, missing_names, poll_games,
    remove_game, running_known, suggestions, typed_exe,
};
use openclips::ui::status::{
    describe_buffer, describe_buffer_state, describe_recording, refresh_status, shown_game,
};
use openclips::ui::window::{
    add_warning, count_tick, engine_outcome, first_of, hotkeys_unavailable, keys_of, save_label, save_length,
    saving_clip,
};
use openclips::ui::{format_megabytes, format_whole_megabytes};
use openclips::updater::{PendingUpdate, UpdateEvent};

fn translator(spanish: &str) -> Translator {
    Translator::new(Catalogs {
        spanish: load_catalog(spanish),
        french: load_catalog("{}"),
        german: load_catalog("{}"),
        russian: load_catalog("{}"),
        portuguese: load_catalog("{}"),
        italian: load_catalog("{}"),
    })
}

fn english() -> Translator {
    translator("{}")
}

fn general(sound: bool, toast: bool) -> GeneralConfig {
    GeneralConfig {
        launch_on_startup: false,
        clip_sound: sound,
        clip_toast: toast,
        animations: true,
        language: Language::English,
        start_minimized: false,
        intro_done: true,
    }
}

fn session() -> Session {
    Session {
        texts: StatusTexts::new(),
        pending_update: None,
        update_banner: None,
    }
}

fn written(path: &str) -> ClipFile {
    ClipFile {
        path: path.to_owned(),
        bytes: 1_572_864,
        duration: 61_250_000_000,
        game: Some("Doom".to_owned()),
        audio_tracks: vec!["Desktop".to_owned()],
    }
}

fn game(name: &str, exe: &str) -> DetectedGame {
    DetectedGame {
        name: name.to_owned(),
        exe: exe.to_owned(),
        pid: 1,
        path: None,
        foreground: false,
        profile: None,
    }
}

fn blank() -> GameProfile {
    GameProfile {
        exe: String::new(),
        name: String::new(),
        action: GameAction::Buffer,
        replay_length_seconds: None,
        subfolder: None,
        display: None,
        capture_method: None,
    }
}

fn profile(exe: &str, name: &str) -> GameProfile {
    GameProfile {
        exe: exe.to_owned(),
        name: name.to_owned(),
        ..blank()
    }
}

fn row(exe: &str, name: &str) -> GameProfileRow {
    GameProfileRow {
        exe: exe.to_owned(),
        name: name.to_owned(),
        action_index: 0,
        replay_seconds: 0,
        subfolder: String::new(),
        display_index: 0,
    }
}

fn clip(id: &str, created: u64) -> ClipRecord {
    ClipRecord {
        id: id.to_owned(),
        path: format!("/v/{id}.mp4"),
        title: "My clip".to_owned(),
        kind: ClipKind::Recording,
        game: None,
        created: Moment {
            seconds: created as i64,
            nanos: 0,
        },
        bytes: 3_145_728,
        duration_ms: 10_000,
        width: 1920,
        height: 1080,
        probed: true,
        thumbnail: None,
        audio_tracks: vec!["Desktop".to_owned(), "Mic".to_owned()],
    }
}

fn status(buffer: BufferState, recording: RecordingState) -> EngineStatus {
    EngineStatus {
        buffer,
        recording,
        report: BufferReport {
            stats: ReplayStats {
                duration: 12_500_000_000,
                bytes: 5_242_880,
                looks_blank: false,
            },
            stream: Some(StreamInfo {
                width: 1920,
                height: 1080,
                fps_numerator: 60,
                fps_denominator: 1,
            }),
            audio_tracks: 2,
        },
        encoder: EncoderInfo {
            kind: EncoderKind::Software,
            element: "x264enc".to_owned(),
        },
        backend: "gst",
        replay_length: 30,
        notice: Some("Note.".to_owned()),
        blank: true,
    }
}

fn progress() -> Progress {
    Progress {
        playing: false,
        position: 0,
        position_text: String::new(),
        duration: 0,
        duration_text: String::new(),
        message: String::new(),
    }
}

#[test]
fn megabytes_have_one_decimal_or_none() {
    for bytes in [0u64, 52_428, 1_048_576, 1_572_864, 157_286_400, 123_456_789_012, u64::MAX] {
        let mb = bytes as f64 / (1024.0 * 1024.0);
        assert_eq!(format_megabytes(bytes), format!("{mb:.1}"));
        assert_eq!(format_whole_megabytes(bytes), format!("{mb:.0}"));
    }
}

#[test]
fn a_saved_clip_is_announced_and_indexed() {
    let mut s = session();
    let t = english();
    let event = UiEvent::ClipSaved(Ok(SavedClip {
        clip: written("/v/a.mp4"),
        seconds: 61,
        seconds_text: "61.2".to_owned(),
    }));
    let effects = handle_event(&mut s, &t, &general(true, true), event);
    assert!(effects.announcement.sound && effects.show_texts);
    let toast = effects.announcement.toast.expect("toast");
    assert_eq!(toast.title, "Clip saved");
    assert_eq!(toast.message, "Clipped the last 61 seconds");
    assert_eq!(effects.index.expect("indexed").path, "/v/a.mp4");
    assert_eq!(s.texts.last_clip, "/v/a.mp4");
    assert_eq!(s.texts.save_status, "Saved a.mp4 (61.2 s, 1.5 MB)");
}

#[test]
fn a_failed_save_keeps_the_last_clip() {
    let mut s = session();
    s.texts.last_clip = "/v/old.mp4".to_owned();
    let event = UiEvent::ClipSaved(Err("disk full".to_owned()));
    let effects = handle_event(&mut s, &english(), &general(true, true), event);
    assert!(!effects.announcement.sound && effects.announcement.toast.is_none());
    assert!(effects.index.is_none());
    assert_eq!(s.texts.last_clip, "/v/old.mp4");
    assert_eq!(s.texts.save_status, "Could not save clip: disk full");
}

#[test]
fn recordings_and_edits_report_in_the_language_of_the_window() {
    let mut s = session();
    let mut t = translator(
        "{\"Saved {name} ({duration}, {mb} MB)\":\"{mb} MB en {name}, {duration}\",\
         \"the original file\":\"el original\"}",
    );
    t.set_language(Language::Spanish);
    let effects = handle_event(
        &mut s,
        &t,
        &general(false, false),
        UiEvent::RecordingDone(Ok(written("/v/r.mp4"))),
    );
    assert!(effects.recording_finished);
    assert_eq!(s.texts.recording_message, "1.5 MB en r.mp4, 1:01");
    let effects = handle_event(
        &mut s,
        &t,
        &general(false, false),
        UiEvent::EditDone {
            result: Ok(written("/v/tmp.mp4")),
            overwrite: true,
            original: "/v/o.mp4".to_owned(),
        },
    );
    assert_eq!(
        effects.edit_message.as_deref(),
        Some("1.5 MB en el original, 1:01")
    );
    let tag = effects.tag.expect("tagged");
    assert_eq!(tag.path, "/v/o.mp4");
    assert_eq!(tag.tracks, vec!["Desktop".to_owned()]);
    let effects = handle_event(
        &mut s,
        &t,
        &general(false, false),
        UiEvent::EditDone {
            result: Err("x".to_owned()),
            overwrite: false,
            original: "/v/o.mp4".to_owned(),
        },
    );
    assert_eq!(effects.edit_message.as_deref(), Some("Edit failed: x"));
    assert!(effects.tag.is_none());
    let _ = handle_event(
        &mut s,
        &t,
        &general(false, false),
        UiEvent::RecordingDone(Err("y".to_owned())),
    );
    assert_eq!(s.texts.recording_message, "Recording failed: y");
}

#[test]
fn a_ready_update_is_kept() {
    let mut s = session();
    let pending = PendingUpdate {
        version: "2".to_owned(),
        installer: "i".to_owned(),
        sha256: "h".to_owned(),
        release_url: "u".to_owned(),
    };
    let g = general(false, false);
    let effects = handle_event(&mut s, &english(), &g, UiEvent::Update(UpdateEvent::Ready(pending)));
    assert!(effects.show_banner);
    let next = UpdateEvent::Downloading {
        version: "3".to_owned(),
    };
    let _ = handle_event(&mut s, &english(), &g, UiEvent::Update(next));
    assert_eq!(s.pending_update.expect("kept").version, "2");
    let mut other = session();
    let names = handle_event(&mut other, &english(), &g, UiEvent::Steam(Ok(vec![])));
    assert!(matches!(names.names, Some(Ok(list)) if list.is_empty()));
}

#[test]
fn the_status_is_told_in_words() {
    let t = english();
    let s = status(BufferState::Running, RecordingState::Idle);
    assert_eq!(
        describe_buffer(&t, &s),
        "12 of 30 s buffered, 5 MB in memory, 1920x1080 @ 60 fps, 2 audio tracks"
    );
    assert_eq!(describe_buffer_state(&t, &s.buffer), "Recording into memory");
    assert_eq!(describe_recording(&t, &RecordingState::Idle), "Not recording");
    assert_eq!(
        describe_recording(
            &t,
            &RecordingState::Active {
                path: FilePath {
                    dir: "/v".to_owned(),
                    name: "r.mp4".to_owned(),
                },
                duration: 3_700_000_000_000,
            }
        ),
        "Recording r.mp4 (1:01:40)"
    );
    assert_eq!(
        describe_recording(&t, &RecordingState::Finishing),
        "Finishing file..."
    );
    let mut full = status(BufferState::Stopped, RecordingState::Idle);
    full.report.stats.duration = 99_000_000_000;
    full.report.audio_tracks = 1;
    full.report.stream = None;
    assert_eq!(
        describe_buffer(&t, &full),
        "30 of 30 s buffered, 5 MB in memory, 1 audio track"
    );
}

#[test]
fn the_status_reaches_window_tray_and_presence() {
    let t = english();
    let mut texts = StatusTexts::new();
    let s = status(BufferState::Running, RecordingState::Failed("boom".to_owned()));
    let view = refresh_status(
        &t,
        Some(&s),
        "Doom",
        &DiscordConfig::default(),
        &mut texts,
    );
    assert!(view.buffer_active && !view.recording_active);
    assert_eq!(view.presence.game.as_deref(), Some("Doom"));
    assert_eq!(texts.recording_message, "Recording failed: boom");
    let page = view.page.expect("page");
    assert_eq!(page.buffer_label, "Buffer on");
    assert!(page.encoder_name.ends_with(" (gst)"));
    assert!(page.notice.starts_with("Note. The capture looks black."));
    assert!(page.show_texts && page.error.is_none());

    let failed = status(BufferState::Failed("f".to_owned()), RecordingState::Starting);
    let view = refresh_status(
        &t,
        Some(&failed),
        "No game detected",
        &DiscordConfig::default(),
        &mut texts,
    );
    assert!(view.recording_active && view.presence.game.is_none());
    assert_eq!(view.page.expect("page").error.as_deref(), Some("f"));

    let none = refresh_status(&t, None, "", &DiscordConfig::default(), &mut texts);
    assert!(!none.buffer_active && !none.presence.wanted());
    assert_eq!(none.page.err().as_deref(), Some("Unavailable"));

    let mut spanish = translator("{\"No game detected\":\"Sin juego\"}");
    spanish.set_language(Language::Spanish);
    assert_eq!(shown_game(&spanish, "No game detected"), "Sin juego");
    assert_eq!(shown_game(&spanish, "Doom"), "Doom");
}

#[test]
fn the_player_page_shows_a_clip() {
    let page = open_clip(&clip("a", 1), true);
    assert_eq!(page.title, "My clip");
    assert_eq!(
        page.details,
        "Recording  |  1920x1080  |  3.0 MB  |  /v/a.mp4"
    );
    assert_eq!(page.selection.end_text, "0:10.000");
    assert_eq!(page.selection.summary, "Selection: 0:10.000");
    assert_eq!(kept_tracks(&page.tracks), vec![true, true]);
    let silent = open_clip(&clip("a", 1), false);
    assert_eq!(silent.message, "Playback is unavailable on this system.");
}

#[test]
fn selections_stay_ordered() {
    assert_eq!(format_precise(61_005), "1:01.005");
    let mut s = Selection::new(2_000, 5_000);
    s.set_in(9_000);
    assert_eq!((s.start, s.end), (5_000, 5_000));
    s.set_out(7_000);
    s.set_in(1_000);
    assert_eq!((s.start, s.end), (1_000, 7_000));
    s.set_out(500);
    assert_eq!(s.end, 1_000);
    s.set_out_at(99_000, 8_000);
    assert_eq!(s.end, 8_000);
    s.set_out_at(0, 8_000);
    assert_eq!(s.end, 1_000);
    assert_eq!(s.summary, "Selection: 0:00.000");
    assert_eq!(skip_target(5_000, -9_000, 8_000), 0);
    assert_eq!(skip_target(5_000, 9_000, 8_000), 8_000);
    assert_eq!(skip_target(skip_target(5_000, 2_000, 8_000), -2_000, 8_000), 5_000);
}

#[test]
fn muting_keeps_the_volume() {
    let mut sound = Sound {
        muted: false,
        volume: 0x42c8_0000,
    };
    assert_eq!(sound.toggle_mute(), 0);
    assert_eq!(sound.toggle_mute(), 0x42c8_0000);
    let _ = sound.toggle_mute();
    sound.volume_changed(7);
    assert_eq!(
        sound,
        Sound {
            muted: false,
            volume: 7,
        }
    );
}

#[test]
fn renaming_and_deleting_show_their_errors() {
    let mut page = open_clip(&clip("a", 1), true);
    page.renaming = true;
    assert!(!renamed(&mut page, "x", Err("no".to_owned()), None));
    assert!(page.renaming);
    assert_eq!(page.message, "no");
    assert!(renamed(&mut page, " New ", Ok(()), Some("/v/New.mp4".to_owned())));
    assert_eq!(page.title, "New");
    assert_eq!(page.path, "/v/New.mp4");
    page.confirm_delete = true;
    assert!(!deleted(&mut page, Err("busy".to_owned())));
    assert!(!page.confirm_delete);
    assert_eq!(page.message, "busy");
    assert!(deleted(&mut page, Ok(())));
}

fn setup() -> EditSetup {
    EditSetup {
        video_bitrate_kbps: 15000,
        audio_bitrate_kbps: 160,
        beside: "/v/edit/a.mp4".to_owned(),
    }
}

#[test]
fn cuts_are_planned() {
    let record = clip("a", 1);
    let mut page = open_clip(&record, true);
    let range = TrimRange {
        start: 0,
        end: 10_000,
    };
    assert_eq!(
        wanted_range(&page, None, 5).err().as_deref(),
        Some("Open a clip first.")
    );
    assert_eq!(wanted_range(&page, Some(&record), 5), Ok((range, 10_000)));
    match save_trim(&page, &record, Ok(range), true, 0, false, setup()) {
        Err(text) => assert_eq!(
            text,
            "The selection covers the whole clip and every track is on; nothing to save."
        ),
        Ok(_) => panic!("unexpected job"),
    }
    page.tracks[1].enabled = false;
    let (job, message) =
        save_trim(&page, &record, Ok(range), true, 1, true, setup()).expect("job");
    assert_eq!(message, "Re-encoding the selection, this takes a moment...");
    assert_eq!(job.mode, TrimMode::FrameAccurate);
    assert_eq!(job.output, "/v/a.mp4.trimmed");
    assert_eq!(job.keep_audio, vec![true, false]);
    let (job, message) =
        save_trim(&page, &record, Ok(range), false, 0, false, setup()).expect("job");
    assert_eq!(message, "Cutting...");
    assert_eq!(job.output, "/v/edit/a.mp4");
    assert_eq!(
        save_trim(&page, &record, Err("bad".to_owned()), false, 0, false, setup())
            .err()
            .as_deref(),
        Some("bad")
    );
}

#[test]
fn compressions_never_scale_up() {
    let record = clip("a", 1);
    let page = open_clip(&record, true);
    let presets = vec![
        CompressPreset {
            height: 720,
            bitrate_kbps: 4000,
        },
        CompressPreset {
            height: 1440,
            bitrate_kbps: 9000,
        },
    ];
    let range = TrimRange {
        start: 0,
        end: 10_000,
    };
    let (small, _) =
        compress_clip(&page, &record, Ok(range), &presets, -1, "/o".to_owned()).expect("job");
    assert_eq!(small.scale_height, Some(720));
    assert_eq!(small.video_bitrate_kbps, 4000);
    assert_eq!(small.audio_bitrate_kbps, 128);
    let (large, _) =
        compress_clip(&page, &record, Ok(range), &presets, 1, "/o".to_owned()).expect("job");
    assert_eq!(large.scale_height, None);
    let (first, _) =
        compress_clip(&page, &record, Ok(range), &presets, 9, "/o".to_owned()).expect("job");
    assert_eq!(first.video_bitrate_kbps, 4000);
}

#[test]
fn edits_keep_the_page_busy() {
    let mut page = open_clip(&clip("a", 1), true);
    assert_eq!(start_edit(&mut page, false, true, "b"), (false, false));
    assert_eq!(page.trim_message, "Editing is unavailable on this system.");
    assert_eq!(start_edit(&mut page, true, true, "busy"), (true, true));
    assert!(page.trim_busy);
    edit_not_started(&mut page, "t");
    assert_eq!(page.trim_message, "Could not start the edit: t");
    assert_eq!(start_edit(&mut page, true, false, "busy"), (true, false));
    edit_finished(&mut page, "done".to_owned());
    assert!(!page.trim_busy);
    assert_eq!(page.trim_message, "done");
}

#[test]
fn the_player_plays_pauses_and_stops_at_the_end_of_a_preview() {
    let mut p = PlayerController::new();
    let mut page = progress();
    assert!(p.toggle(false).is_empty());
    assert_eq!(p.seek(5), None);
    assert!(p.open("a", Err("gone".to_owned()), &mut page).is_empty());
    assert_eq!(page.message, "Could not play this clip: gone");
    assert_eq!(p.open("a", Ok(()), &mut page), vec![Request::Play]);
    assert_eq!(p.current(), Some("a"));
    assert!(page.playing);
    assert_eq!(p.toggle(true), vec![Request::Pause]);
    assert_eq!(
        p.preview(1_000_000_000, 3_000_000_000, &mut page),
        vec![Request::Seek(1_000_000_000), Request::Play]
    );
    let at = |position: u64| PlayerView {
        playing: true,
        position: Some(position),
        duration: Some(65_000_000_000),
    };
    assert_eq!(p.tick(at(2_000_000_000), &mut page), None);
    assert_eq!(page.position_text, "0:02");
    assert_eq!(page.duration_text, "1:05");
    assert_eq!(p.tick(at(3_000_000_000), &mut page), Some(Request::Pause));
    assert!(!page.playing);
    assert_eq!(p.stop_at, None);
    p.on_finished();
    assert_eq!(p.tick(at(1), &mut page), Some(Request::Pause));
    assert_eq!(page.position_text, "1:05");
    assert_eq!(p.toggle(false), vec![Request::Seek(0), Request::Play]);
    p.on_error("codec".to_owned());
    let _ = p.tick(at(1), &mut page);
    assert_eq!(page.message, "Playback error: codec");
    assert!(p.on_frame());
    assert!(!p.on_frame());
    p.frame_landed();
    assert!(p.on_frame());
    p.stop(&mut page);
    assert_eq!(p.current(), None);
}

#[test]
fn running_games_are_told_and_offered() {
    let games = vec![game("Doom", "doom.exe"), game("Quake", "quake.exe")];
    let poll = poll_games(&games, games.first(), "No game detected", "");
    assert_eq!(poll.name.as_deref(), Some("Doom"));
    assert_eq!(poll.running.as_deref(), Some("Running now: Doom, Quake"));
    let same = poll_games(&games, games.first(), "Doom", "Running now: Doom, Quake");
    assert!(same.name.is_none() && same.running.is_none());
    let none = poll_games(&vec![], None, "Doom", "x");
    assert_eq!(none.name.as_deref(), Some("No game detected"));
    assert_eq!(none.running.as_deref(), Some("Running now: no known game"));
    assert_eq!(
        running_known(&games, &vec![row("DOOM.exe", "")]),
        vec!["Quake (quake.exe)".to_owned()]
    );
}

#[test]
fn games_are_added_once_and_removed() {
    let games = vec![game("Doom", "doom.exe"), game("Quake", "quake.exe")];
    let mut profiles = vec![profile("doom.exe", "Doom")];
    assert_eq!(
        add_running_game(&mut profiles, &games, -3, blank()).as_deref(),
        Some("Added Quake.")
    );
    assert_eq!(add_running_game(&mut profiles, &games, 0, blank()), None);
    assert_eq!(profiles[1].exe, "quake.exe");
    assert_eq!(typed_exe(" Portal ").as_deref(), Ok("portal.exe"));
    assert_eq!(typed_exe("A.EXE").as_deref(), Ok("a.exe"));
    assert_eq!(
        typed_exe("  "),
        Err("Enter the executable name, for example game.exe.".to_owned())
    );
    assert_eq!(
        add_game(&mut profiles, "doom.exe", "x", None, blank()),
        Err("doom.exe is already in the list.".to_owned())
    );
    assert_eq!(
        add_game(&mut profiles, "p.exe", " ", Some("Portal".to_owned()), blank()),
        Ok("Added p.exe.".to_owned())
    );
    assert_eq!(profiles[2].name, "Portal");
    assert_eq!(remove_game(&mut profiles, "doom.exe"), "Removed.");
    assert_eq!(profiles.len(), 2);
    assert!(add_game(&mut profiles, "doom.exe", "", None, blank()).is_ok());
}

#[test]
fn names_are_suggested_and_filled_in() {
    let profiles = vec![profile("portal.exe", " "), profile("doom.exe", "Doom")];
    let missing = missing_names(&profiles).expect("missing");
    assert_eq!(missing, vec!["portal.exe".to_owned()]);
    assert_eq!(
        missing_names(&profiles[1..].iter().map(|p| p.clone()).collect()),
        Err("Every game in the list already has a name.".to_owned())
    );
    let catalog = vec!["Portal 2".to_owned(), "Portal".to_owned()];
    let found = suggestions(&missing, &catalog);
    assert_eq!(found, vec![("portal.exe".to_owned(), "Portal".to_owned())]);
    let mut rows = vec![row("PORTAL.exe", ""), row("doom.exe", "Doom")];
    assert_eq!(
        apply_steam_result(&mut rows, Ok(found)),
        "Filled 1 name(s) from Steam."
    );
    assert_eq!(rows[0].name, "Portal");
    assert_eq!(rows[1].name, "Doom");
    assert_eq!(
        apply_steam_result(&mut rows, Ok(vec![])),
        "Steam had no matching names."
    );
    assert_eq!(apply_steam_result(&mut rows, Err("offline".to_owned())), "offline");
}

#[test]
fn candidates_are_sorted_without_system_processes() {
    let process = |exe: &str| RunningProcess {
        pid: 1,
        exe: exe.to_owned(),
        path: None,
        foreground: false,
    };
    let running = vec![
        process("spotify.exe"),
        process("svchost.exe"),
        process("chat.exe"),
        process(""),
        process("spotify.exe"),
        process("openclips.exe"),
    ];
    assert_eq!(
        app_candidates(&running),
        vec!["chat.exe".to_owned(), "spotify.exe".to_owned()]
    );
}

#[test]
fn icons_are_looked_for_once() {
    let mut service = GameService::new();
    assert!(service.refresh(vec![game("Doom", "doom.exe")], &vec![Some("/g/doom".to_owned())]));
    assert!(!service.refresh(vec![game("Doom!", "doom.exe")], &vec![None]));
    assert_eq!(service.detected()[0].path, None);
    assert!(matches!(service.icon_for_exe("doom.exe"), Icon::Unknown));
    assert_eq!(
        service.cached_icon("doom.exe", "/i/doom.png".to_owned(), true).as_deref(),
        Some("/i/doom.png")
    );
    service.icon_made("doom.exe", None);
    assert!(matches!(service.icon_for_exe("doom.exe"), Icon::Known(None)));
    assert_eq!(service.cached_icon("doom.exe", "/i".to_owned(), true), None);
    service.icon_made("q.exe", Some("/i/q.png".to_owned()));
    assert_eq!(icon_file_name("doom.exe"), "doom.png");
    let known = vec![None, Some("Quake".to_owned())];
    let profiles = vec![profile("p.exe", "PORTAL")];
    assert_eq!(service.exe_for_name("portal", &profiles, &known).as_deref(), Some("p.exe"));
    assert_eq!(service.exe_for_name("doom!", &profiles, &known).as_deref(), Some("doom.exe"));
    assert_eq!(service.exe_for_name("quake", &profiles, &known).as_deref(), Some("q.exe"));
    assert_eq!(service.exe_for_name("none", &profiles, &known), None);
}

#[test]
fn the_gallery_page_narrows_down() {
    let t = english();
    let games = vec!["Doom".to_owned(), "Quake".to_owned()];
    assert_eq!(selected_game(&games, 2), Some("Quake"));
    assert_eq!(selected_game(&games, 0), None);
    assert_eq!(selected_game(&games, 3), None);
    let list = game_list(&t, &games, 1, 2).expect("list");
    assert_eq!(list.names, vec!["All games".to_owned(), "Doom".to_owned(), "Quake".to_owned()]);
    assert_eq!(list.index, 2);
    assert!(game_list(&t, &games, 3, 2).is_none());
    let page = GalleryPage {
        game_index: 1,
        kind_index: 3,
        sort_index: 2,
        search: "x".to_owned(),
    };
    let filter = page_filter(&page, &games);
    assert_eq!(filter.game, Some("Doom"));
    assert_eq!(filter.kind, Some(ClipKind::Edited));
    assert_eq!(describe_count(&t, 0), "");
    assert_eq!(describe_count(&t, 1), "1 clip");
    assert_eq!(describe_count(&t, 7), "7 clips");
}

#[test]
fn the_front_page_shows_the_newest_clips() {
    let clips: Vec<ClipRecord> = (0..20).map(|i| clip(&format!("c{i}"), i)).collect();
    let dates = vec![String::new(); 20];
    let library = LibraryService::new(
        clips,
        ClipDirs {
            clips: "/v".to_owned(),
            clips_out: "/v".to_owned(),
            recordings: "/v".to_owned(),
            edited: "/v".to_owned(),
        },
    );
    let recent = recent_clips(&library, &dates);
    assert_eq!(recent.len(), 12);
    assert_eq!(recent[0].id, "c19");
    assert_eq!(recent[11].id, "c8");
}

#[test]
fn storage_is_told() {
    let t = english();
    let known = update_storage(
        &t,
        1_048_576,
        Some(DiskSpace {
            free: 1_073_741_824,
            total: 2_147_483_648,
        }),
    );
    assert_eq!(known.line, "1 MB used\n1.0 GB free");
    assert_eq!(
        known.settings_line,
        "1 MB of clips in this folder. 1.0 GB free of 2.0 GB on the drive."
    );
    assert_eq!((known.taken, known.of), (1_073_741_824, 2_147_483_648));
    let unknown = update_storage(&t, 0, None);
    assert_eq!(unknown.line, "0 MB used");
    assert_eq!(unknown.settings_line, "0 MB of clips in this folder.");
    assert_eq!(unknown.taken, 0);
}

#[test]
fn small_window_decisions() {
    let t = english();
    let mut warning = String::new();
    add_warning(&mut warning, "a");
    add_warning(&mut warning, "b");
    assert_eq!(warning, "a\nb");
    let mut ticks = u32::MAX - 1;
    assert!(!count_tick(&mut ticks));
    assert!(count_tick(&mut ticks));
    assert_eq!(ticks, 0);
    assert_eq!(
        engine_outcome(&t, None),
        "Capture is unavailable on this system."
    );
    assert_eq!(engine_outcome(&t, Some(Ok(()))), "");
    assert_eq!(
        engine_outcome(&t, Some(Err(AppError::Hotkey("h".to_owned())))),
        "hotkey error: h"
    );
    let binding = HotkeyBinding {
        binding: Hotkey {
            modifiers: KeyModifiers {
                ctrl: false,
                alt: true,
                shift: false,
                super_key: false,
            },
            key: Key::F(7),
        },
        action: HotkeyActionKind::SaveReplay,
        seconds: 45,
    };
    let bindings = vec![binding];
    assert_eq!(save_length(&bindings, Some(0)), Some(45));
    assert_eq!(save_length(&bindings, Some(1)), None);
    assert_eq!(save_length(&bindings, None), None);
    assert_eq!(first_of(&bindings, HotkeyActionKind::SaveReplay), Some(binding));
    assert_eq!(first_of(&bindings, HotkeyActionKind::ToggleRecording), None);
    assert_eq!(keys_of(Some("Alt+F7")), vec!["ALT".to_owned(), "F7".to_owned()]);
    assert_eq!(keys_of(None), vec!["none".to_owned()]);
    assert_eq!(save_label(None), "no save hotkey set");
    let mut texts = StatusTexts::new();
    saving_clip(&t, &mut texts);
    assert_eq!(texts.save_status, "Saving clip...");
}

#[test]
fn an_edit_that_cannot_replace_the_original_failed() {
    assert_eq!(
        edit_result(Ok(written("/v/t.mp4")), None).expect("cut").path,
        "/v/t.mp4"
    );
    assert!(edit_result(Ok(written("/v/t.mp4")), Some(Ok(()))).is_ok());
    assert_eq!(
        edit_result(Ok(written("/v/t.mp4")), Some(Err("busy".to_owned())))
            .err()
            .as_deref(),
        Some("could not replace the original: busy")
    );
    assert_eq!(
        edit_result(Err("no".to_owned()), None).err().as_deref(),
        Some("no")
    );
    assert_eq!(
        hotkeys_unavailable("no display"),
        "Global hotkeys are unavailable: no display"
    );
}

#[test]
fn replacements_lie_beside_the_clip() {
    let trimmed = |path: &str| with_extension(path, "mp4.trimmed");
    assert_eq!(trimmed("/v/a.mp4"), "/v/a.mp4.trimmed");
    assert_eq!(trimmed("/v/a"), "/v/a.mp4.trimmed");
    assert_eq!(trimmed("/v/a.b.mkv"), "/v/a.b.mp4.trimmed");
    assert_eq!(trimmed("/v/.hidden"), "/v/.hidden.mp4.trimmed");
    assert_eq!(trimmed("/a.mp4/a.mp4/./"), "/a.mp4/a.mp4.trimmed");
    assert_eq!(trimmed("C:\\v\\a.mp4"), "C:\\v\\a.mp4.trimmed");
    assert_eq!(trimmed("/v/.."), "/v/..");
    assert_eq!(trimmed(""), "");
    for path in ["/v/a.mp4", "a", "x/y.z/", "/v/.hidden", "/", "..", "/q/./r.tar.gz//."] {
        let std = std::path::Path::new(path).with_extension("mp4.trimmed");
        assert_eq!(trimmed(path), std.display().to_string(), "{path}");
    }
}
