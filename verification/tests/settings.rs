use openclips::config::{
    AudioConfig, AudioDeviceInfo, AudioDeviceKind, AudioSourceConfig, CaptureApi, CaptureConfig,
    CaptureMethod, CaptureScope, Config, DiscordConfig, DisplaySelection, EncoderPreference,
    GameAction, GameProfile, GamesConfig, GeneralConfig, Hotkey, HotkeyActionKind, HotkeyBinding,
    HotkeyConfig, Key, KeyModifiers, Language, MonitorInfo, OutputConfig, RecordingConfig,
    ReplayConfig, UpdatesConfig,
};
use openclips::hotkeys::to_code;
use openclips::i18n::{load_catalog, Catalogs, Translator};
use openclips::settings::audio::{
    add_app_source, collect_audio_sources, refresh_audio_sources, remove_audio_source,
};
use openclips::settings::changes::{consequences, same_config};
use openclips::settings::games::{collect_game_profiles, display_index, selected_display};
use openclips::settings::page::{collect, populate, set_audio_sources, set_monitors, validated};
use openclips::settings::{
    add_hotkey, collect_hotkeys, key_parts, quality_index, quality_label, remove_hotkey,
    seconds_of, set_hotkey_binding, set_hotkeys, SAVE_ACTION_BASE,
};
use openclips::ui::intro;
use openclips::ui::saving::{
    begin_save, key_captured, write_failed, Autosave, KeyCapture, SaveStep, Saving,
};

const ONE: u32 = 0x3f80_0000;

fn f_key(n: u8) -> Hotkey {
    Hotkey {
        modifiers: KeyModifiers {
            ctrl: false,
            alt: true,
            shift: false,
            super_key: false,
        },
        key: Key::F(n),
    }
}

fn binding(n: u8, action: HotkeyActionKind, seconds: u32) -> HotkeyBinding {
    HotkeyBinding {
        binding: f_key(n),
        action,
        seconds,
    }
}

fn monitors() -> Vec<MonitorInfo> {
    vec![MonitorInfo {
        id: "DP-1".to_owned(),
        name: "Dell".to_owned(),
        width: 2560,
        height: 1440,
        x: 0,
        y: 0,
        refresh_hz: 144,
        primary: true,
    }]
}

fn devices() -> Vec<AudioDeviceInfo> {
    vec![AudioDeviceInfo {
        id: "default".to_owned(),
        name: "Default output".to_owned(),
        kind: AudioDeviceKind::Output,
    }]
}

fn source(id: &str, name: &str, kind: AudioDeviceKind) -> AudioSourceConfig {
    AudioSourceConfig {
        id: id.to_owned(),
        name: name.to_owned(),
        kind,
        enabled: true,
        volume: ONE,
        muted: false,
    }
}

fn profile(exe: &str) -> GameProfile {
    GameProfile {
        exe: exe.to_owned(),
        name: "Game".to_owned(),
        action: GameAction::Recording,
        replay_length_seconds: Some(45),
        subfolder: Some("Sub".to_owned()),
        display: Some(DisplaySelection::Monitor("DP-1".to_owned())),
        capture_method: Some(CaptureMethod::Game),
    }
}

fn config() -> Config {
    Config {
        capture: CaptureConfig {
            display: DisplaySelection::Monitor("DP-1".to_owned()),
            encoder: EncoderPreference::Nvenc,
            fps: 60,
            bitrate_kbps: 15000,
            show_cursor: true,
            stretch: false,
            api: CaptureApi::GraphicsCapture,
            method: CaptureMethod::Display,
        },
        general: GeneralConfig {
            launch_on_startup: false,
            clip_sound: true,
            clip_toast: false,
            animations: true,
            language: Language::German,
            start_minimized: false,
            intro_done: true,
        },
        replay: ReplayConfig {
            length_seconds: 120,
            memory_cap_mb: 1024,
            start_on_launch: true,
            temp_dir: None,
        },
        updates: UpdatesConfig { check: true },
        discord: DiscordConfig::default(),
        output: OutputConfig {
            clips_dir: Some("/clips".to_owned()),
            file_name_pattern: "{game}".to_owned(),
            clips_subfolder: "c".to_owned(),
            edited_subfolder: "e".to_owned(),
        },
        recording: RecordingConfig {
            subfolder: "r".to_owned(),
        },
        audio: AudioConfig {
            enabled: true,
            separate_tracks: true,
            bitrate_kbps: 160,
            sources: vec![
                source("default", "Default output", AudioDeviceKind::Output),
                source("chat.exe", "chat.exe", AudioDeviceKind::Application),
            ],
        },
        games: GamesConfig {
            scope: CaptureScope::PerGame,
            profiles: vec![profile("doom.exe")],
        },
        hotkeys: HotkeyConfig {
            bindings: vec![
                binding(7, HotkeyActionKind::SaveReplay, 90),
                binding(8, HotkeyActionKind::ToggleBuffer, 0),
            ],
        },
    }
}

fn english() -> Translator {
    Translator::new(Catalogs {
        spanish: load_catalog("{}"),
        french: load_catalog("{}"),
        german: load_catalog("{}"),
        russian: load_catalog("{}"),
        portuguese: load_catalog("{}"),
        italian: load_catalog("{}"),
    })
}

#[test]
fn qualities_have_presets() {
    assert_eq!(quality_index(30, 8000), 0);
    assert_eq!(quality_index(60, 15000), 1);
    assert_eq!(quality_index(60, 30000), 2);
    assert_eq!(quality_index(60, 1), 3);
    assert_eq!(quality_label(60, 30000), "High quality, 60 fps");
    assert_eq!(quality_label(30, 12_500), "30 fps, 12 Mbps");
    assert_eq!(quality_label(30, 13_500), "30 fps, 14 Mbps");
}

#[test]
fn keycaps_are_in_upper_case() {
    assert_eq!(key_parts("Alt+F7"), vec!["ALT".to_owned(), "F7".to_owned()]);
    assert_eq!(key_parts("stra\u{df}e"), vec!["STRASSE".to_owned()]);
}

#[test]
fn the_page_gives_back_the_settings() {
    let before = config();
    let page = populate(&before, &monitors(), &devices(), "/default");
    assert_eq!(page.display_names[1], "Dell (2560x1440 at 144 Hz)");
    assert_eq!(page.display_index, 1);
    assert_eq!(page.replay_length_value, 2);
    assert_eq!(page.replay_unit_index, 1);
    let after = collect(&page, config(), &monitors(), "/default").expect("valid");
    assert!(same_config(&before, &after));
    assert!(same_config(&after, &before));
}

#[test]
fn the_page_can_show_other_displays_and_devices() {
    let mut page = populate(&config(), &monitors(), &devices(), "/default");
    set_monitors(&mut page, &vec![], &DisplaySelection::Primary);
    assert_eq!(page.display_names, vec!["Primary display".to_owned()]);
    assert_eq!(page.display_index, 0);
    set_audio_sources(&mut page, &config(), &vec![]);
    assert_eq!(page.audio_sources.len(), 2);
    assert!(!page.audio_sources[0].connected);
}

#[test]
fn displays_are_found_by_their_place() {
    let m = monitors();
    let gone = DisplaySelection::Monitor("gone".to_owned());
    assert_eq!(display_index(&m, &gone), 0);
    assert!(matches!(selected_display(1, &m), DisplaySelection::Monitor(id) if id == "DP-1"));
    assert!(matches!(selected_display(2, &m), DisplaySelection::Primary));
    assert!(matches!(selected_display(-1, &m), DisplaySelection::Primary));
}

#[test]
fn hotkey_rows_can_be_added_bound_and_removed() {
    let mut rows = set_hotkeys(&config().hotkeys.bindings);
    add_hotkey(&mut rows);
    assert_eq!(rows.len(), 3);
    set_hotkey_binding(&mut rows, 2, f_key(12));
    let bindings = collect_hotkeys(&rows).expect("valid");
    assert_eq!(bindings[2].binding, f_key(12));
    assert_eq!(bindings[0].seconds, 90);
    remove_hotkey(&mut rows, 2);
    remove_hotkey(&mut rows, 1);
    remove_hotkey(&mut rows, 0);
    assert_eq!(rows.len(), 1);
    rows[0].binding = Err("bad key".to_owned());
    assert!(collect_hotkeys(&rows).is_err());
    assert_eq!(seconds_of(1, 30), 90);
}

#[test]
fn audio_rows_keep_what_is_not_connected() {
    let page = populate(&config(), &monitors(), &devices(), "/d");
    let mut rows = page.audio_sources;
    add_app_source(&mut rows, " Music ");
    let collected = collect_audio_sources(&rows);
    assert!(collected.iter().any(|s| s.id == "music.exe" || s.id == "music"));
    let again = refresh_audio_sources(&rows, &vec![]);
    assert_eq!(again.len(), rows.len());
    let fewer = remove_audio_source(&again, "chat.exe");
    assert!(fewer.iter().all(|r| r.id != "chat.exe"));
}

#[test]
fn profile_rows_without_an_executable_are_dropped() {
    let mut page = populate(&config(), &monitors(), &devices(), "/d");
    page.game_profiles[0].exe = "  ".to_owned();
    assert!(collect_game_profiles(&page.game_profiles, &monitors(), &vec![]).is_empty());
    page.game_profiles[0].exe = " DOOM.exe ".to_owned();
    let kept = collect_game_profiles(&page.game_profiles, &monitors(), &vec![profile("doom.exe")]);
    assert_eq!(kept[0].exe, "doom.exe");
    assert_eq!(kept[0].capture_method, Some(CaptureMethod::Game));
}

#[test]
fn changes_are_told_apart() {
    let a = config();
    let mut b = config();
    assert!(same_config(&a, &b));
    b.audio.sources[0].volume = 0;
    assert!(!same_config(&a, &b));
    let mut zero = config();
    zero.audio.sources[0].volume = 0x8000_0000;
    assert!(same_config(&zero, &b));
    let mut nan = config();
    nan.audio.sources[0].volume = 0x7fc0_0000;
    assert!(!same_config(&nan, &nan));

    let mut c = config();
    c.general.start_minimized = true;
    assert!(!consequences(&a, &c).startup);
    c.general.launch_on_startup = true;
    c.general.language = Language::French;
    c.hotkeys.bindings[0].seconds = 5;
    let calls = consequences(&a, &c);
    assert!(calls.startup && calls.rebind);
    assert_eq!(calls.language, Some(Language::French));
    let nothing = consequences(&a, &config());
    assert!(!nothing.startup && !nothing.rebind && nothing.language.is_none());
}

#[test]
fn a_save_ends_in_a_notice() {
    assert!(matches!(
        begin_save(Err("bad".to_owned()), &config()),
        SaveStep::Refused { message } if message == "bad"
    ));
    assert!(matches!(begin_save(Ok(config()), &config()), SaveStep::Unchanged));
    let mut next = config();
    next.hotkeys.bindings.pop();
    let calls_for = match begin_save(Ok(next), &config()) {
        SaveStep::Write { calls_for, .. } => calls_for,
        other => panic!("unexpected {other:?}"),
    };
    assert_eq!(write_failed("disk full"), "Could not save settings: disk full");
    let t = english();
    let mut saving = Saving::new(calls_for);
    assert!(saving.rebind);
    let fine = saving.finish(&t);
    assert_eq!(fine.text, "Settings saved.");
    assert_eq!(fine.clears_after, Some(2500));
    saving.startup_applied(Err("No key.".to_owned()));
    saving.engine_applied(Err("busy".to_owned()));
    saving.hotkeys_registered(None);
    let bad = saving.finish(&t);
    assert!(bad.is_error && bad.clears_after.is_none());
    assert_eq!(
        bad.text,
        "Settings saved. No key. Capture could not be restarted: busy"
    );
}

#[test]
fn changes_are_saved_once_they_rest() {
    let mut autosave = Autosave { due: None };
    assert!(!autosave.fires(0));
    autosave.schedule(100);
    autosave.schedule(300);
    assert!(!autosave.fires(899));
    assert!(autosave.fires(900));
    assert!(!autosave.fires(901));
}

#[test]
fn a_listening_row_takes_a_key() {
    assert_eq!(
        key_captured(SAVE_ACTION_BASE, true, false, false, false, None),
        KeyCapture::Stop
    );
    assert_eq!(
        key_captured(SAVE_ACTION_BASE, true, true, false, false, None),
        KeyCapture::Listen
    );
    assert_eq!(
        key_captured(SAVE_ACTION_BASE + 2, false, true, false, false, Some(f_key(3))),
        KeyCapture::Bind {
            index: 2,
            hotkey: f_key(3),
        }
    );
    assert_eq!(
        key_captured(1, false, true, false, false, Some(f_key(3))),
        KeyCapture::Stop
    );
    let listening = intro::HOTKEY_ACTION;
    assert_eq!(
        key_captured(listening, false, true, false, false, Some(f_key(3))),
        KeyCapture::Answer { hotkey: f_key(3) }
    );
    let fallback = binding(10, HotkeyActionKind::SaveReplay, 0);
    let mut page = intro::open(&config(), fallback, "/d".to_owned());
    intro::set_hotkey(&mut page, f_key(3));
    assert_eq!(page.hotkey, f_key(3));
}

#[test]
fn the_walkthrough_answers_end_in_the_settings() {
    let fallback = binding(10, HotkeyActionKind::SaveReplay, 0);
    let mut c = config();
    c.general.intro_done = false;
    let mut page = intro::open(&c, fallback, "/clips".to_owned());
    assert!(page.visible);
    assert_eq!((page.minutes, page.seconds), (1, 30));
    assert_eq!(page.scope_index, 0);
    page.hotkey = f_key(2);
    page.minutes = 99;
    page.seconds = -5;
    page.scope_index = 1;
    page.clips_dir = "  ".to_owned();
    intro::finish(&mut c, &page, "/default");
    assert_eq!(c.hotkeys.bindings[0].binding, f_key(2));
    assert_eq!(c.hotkeys.bindings[0].seconds, 3600);
    assert_eq!(c.replay.length_seconds, 3600);
    assert_eq!(c.games.scope, CaptureScope::Global);
    assert!(c.output.clips_dir.is_none());
    assert!(c.general.intro_done);

    let mut none = config();
    none.hotkeys.bindings.clear();
    none.general.intro_done = false;
    let start = intro::open(&none, fallback, "/x".to_owned());
    assert_eq!((start.minutes, start.seconds), (2, 0));
    assert_eq!(start.hotkey, f_key(10));
    intro::finish(&mut none, &start, "/default");
    assert_eq!(none.hotkeys.bindings.len(), 1);
    assert_eq!(none.output.clips_dir.as_deref(), Some("/x"));
    let mut skipped = config();
    skipped.general.intro_done = false;
    intro::skip(&mut skipped);
    assert!(same_config(&skipped, &config()));
}

#[test]
fn profiles_survive_their_rows() {
    let page = populate(&config(), &monitors(), &devices(), "/d");
    let before = config().games.profiles;
    let after = collect_game_profiles(&page.game_profiles, &monitors(), &before);
    assert!(!before.is_empty());
    assert_eq!(format!("{after:?}"), format!("{before:?}"));
}

#[test]
fn new_hotkeys_are_not_used_yet() {
    let mut rows = Vec::new();
    for n in 0..30 {
        add_hotkey(&mut rows);
        let bindings = collect_hotkeys(&rows).expect("valid");
        let last = &bindings[n];
        assert_eq!(last.action, HotkeyActionKind::SaveReplay);
        assert_eq!(last.seconds, 15);
        assert!(bindings[..n].iter().all(|b| b.binding != last.binding));
        if n < 12 {
            assert_eq!(last.binding, f_key(n as u8 + 1));
        }
    }
}

#[test]
fn new_hotkeys_go_on_behind_the_function_keys() {
    let mut rows = Vec::new();
    for _ in 0..300 {
        add_hotkey(&mut rows);
    }
    let bindings = collect_hotkeys(&rows).expect("valid");
    for (n, b) in bindings.iter().enumerate() {
        assert!(to_code(b.binding.key, "key").is_ok());
        assert!(bindings[..n].iter().all(|other| other.binding != b.binding));
    }
    let alt = f_key(1).modifiers;
    assert_eq!(bindings[180].binding.modifiers, alt);
    assert_eq!(bindings[180].binding.key, Key::Char('a'));
    assert_eq!(bindings[266].binding.key, Key::F(35));
    assert!(bindings[267].binding.modifiers.ctrl && !bindings[267].binding.modifiers.alt);
}

#[test]
fn the_default_folder_is_not_written_down() {
    let mut page = populate(&config(), &monitors(), &devices(), "/default");
    for (text, chosen) in [
        ("/other", Some("/other")),
        ("  /other ", Some("/other")),
        ("/default", None),
        (" /default/ ", None),
        ("/./default", None),
        ("/Default", Some("/Default")),
        ("  ", None),
    ] {
        page.folders.clips_dir = text.to_owned();
        let saved = collect(&page, config(), &monitors(), "/default").expect("valid");
        assert_eq!(saved.output.clips_dir.as_deref(), chosen, "{text}");
        let mut c = config();
        let fallback = binding(10, HotkeyActionKind::SaveReplay, 0);
        let answers = intro::open(&c, fallback, text.to_owned());
        intro::finish(&mut c, &answers, "/default");
        assert_eq!(c.output.clips_dir.as_deref(), chosen, "{text}");
    }
}

#[test]
fn edits_of_audio_rows_survive_new_devices() {
    let mut page = populate(&config(), &monitors(), &devices(), "/default");
    page.audio_sources[0].enabled = false;
    page.audio_sources[0].muted = true;
    page.audio_sources[0].volume = 0x3f00_0000;
    let mut more = devices();
    more.push(AudioDeviceInfo {
        id: "mic".to_owned(),
        name: "Microphone".to_owned(),
        kind: AudioDeviceKind::Input,
    });
    let refreshed = refresh_audio_sources(&page.audio_sources, &more);
    set_audio_sources(&mut page, &config(), &more);
    for rows in [&page.audio_sources, &refreshed] {
        assert_eq!(rows[0].id, "default");
        assert!(!rows[0].enabled && rows[0].muted);
        assert_eq!(rows[0].volume, 0x3f00_0000);
        assert_eq!(rows[1].id, "mic");
        assert!(!rows[1].enabled && !rows[1].muted);
    }
}

#[test]
fn invalid_settings_are_refused() {
    let page = populate(&config(), &monitors(), &devices(), "/default");
    let collected = || collect(&page, config(), &monitors(), "/default");
    assert!(validated(collected(), Ok(())).is_ok());
    assert_eq!(
        validated(collected(), Err("bad folder".to_owned())).err().as_deref(),
        Some("bad folder")
    );
    assert_eq!(
        validated(Err("Hotkey 1: no".to_owned()), Ok(())).err().as_deref(),
        Some("Hotkey 1: no")
    );
    for (seconds, fine) in [(4, false), (5, true), (1200, true), (1201, false)] {
        let mut next = config();
        next.replay.length_seconds = seconds;
        assert_eq!(validated(Ok(next), Ok(())).is_ok(), fine);
    }
}
