//! The settings page as a whole: filled from the settings, and read back.
use vstd::prelude::*;

use super::audio::{audio_rows, collect_audio_sources, keep_edits, AudioSourceRow};
use super::games::{collect_game_profiles, display_index, display_names, selected_display,
    set_game_profiles, set_profile_display_names, GameProfileRow};
use super::{collect_hotkeys, encoder_of_index, find_longest_save, index_of_encoder,
    index_of_language, language_of_index, quality_index, set_hotkeys, HotkeyRow};
use crate::config::{AudioDeviceInfo, CaptureApi, CaptureScope, Config, DisplaySelection,
    GeneralConfig, MonitorInfo, UpdatesConfig};
use crate::numbers::to_i32;
use crate::paths::choose_folder;
use crate::text::trim;

verus! {

/// The state of the settings page.
#[derive(Debug)]
pub struct SettingsPage {
    pub display_names: Vec<String>,
    pub display_index: i32,
    pub encoder_index: i32,
    pub fps: i32,
    pub bitrate_kbps: i32,
    pub quality_index: i32,
    pub show_cursor: bool,
    pub stretch: bool,
    pub capture_api_index: i32,
    pub general: GeneralPage,
    pub replay_length_value: i32,
    /// Zero for seconds, one for minutes.
    pub replay_unit_index: i32,
    pub memory_cap_mb: i32,
    pub start_on_launch: bool,
    pub updates_check: bool,
    pub discord_enabled: bool,
    pub discord_show_game: bool,
    pub discord_client_id: String,
    pub folders: FoldersPage,
    pub audio_enabled: bool,
    pub separate_tracks: bool,
    pub audio_bitrate_kbps: i32,
    pub audio_sources: Vec<AudioSourceRow>,
    pub games_scope_index: i32,
    pub profile_display_names: Vec<String>,
    pub game_profiles: Vec<GameProfileRow>,
    pub hotkeys: Vec<HotkeyRow>,
    /// The row that listens for a key, -1 for none.
    pub listening_action: i32,
}

/// The switches of the general section.
#[derive(Debug, Clone, Copy, PartialEq, Eq, Structural)]
pub struct GeneralPage {
    pub launch_on_startup: bool,
    pub clip_sound: bool,
    pub clip_toast: bool,
    pub animations: bool,
    pub language_index: i32,
    pub start_minimized: bool,
}

/// The folders and the file name pattern.
#[derive(Debug)]
pub struct FoldersPage {
    pub clips_dir: String,
    pub file_name_pattern: String,
    pub clips_subfolder: String,
    pub recording_subfolder: String,
    pub edited_subfolder: String,
}

/// `n` as the page shows it, at least one when read back.
pub open spec fn at_least_one(n: int) -> int {
    if n < 1 {
        1
    } else {
        n
    }
}

fn positive(n: i32) -> (r: u32)
    ensures
        r == at_least_one(n as int),
{
    if n < 1 {
        1
    } else {
        n as u32
    }
}

/// How the page shows the length of the replay buffer: minutes when it is a
/// whole number of them.
pub open spec fn length_on_page(seconds: u32) -> (int, int) {
    if seconds >= 60 && seconds % 60 == 0 {
        (crate::numbers::as_i32((seconds / 60) as u32), 1)
    } else {
        (crate::numbers::as_i32(seconds), 0)
    }
}

/// The length of the replay buffer that the page means, at most what fits.
pub open spec fn length_of_page(value: int, unit: int) -> int {
    let n = at_least_one(value);
    if unit == 1 {
        if n * 60 > u32::MAX {
            u32::MAX as int
        } else {
            n * 60
        }
    } else {
        n
    }
}

fn saturating_minutes(n: u32) -> (r: u32)
    ensures
        r == (if n * 60 > u32::MAX {
            u32::MAX as int
        } else {
            n * 60
        }),
{
    if n > 0xffff_ffff / 60 {
        0xffff_ffff
    } else {
        n * 60
    }
}

/// The general section of the page.
pub open spec fn general_page(g: GeneralConfig) -> GeneralPage {
    GeneralPage {
        launch_on_startup: g.launch_on_startup,
        clip_sound: g.clip_sound,
        clip_toast: g.clip_toast,
        animations: g.animations,
        language_index: super::language_index(g.language) as i32,
        start_minimized: g.start_minimized,
    }
}

/// The general settings that the page means. What the page does not show is
/// kept.
pub open spec fn general_of(page: GeneralPage, base: GeneralConfig) -> GeneralConfig {
    GeneralConfig {
        launch_on_startup: page.launch_on_startup,
        clip_sound: page.clip_sound,
        clip_toast: page.clip_toast,
        animations: page.animations,
        language: super::language_at(page.language_index as int),
        start_minimized: page.start_minimized,
        ..base
    }
}

impl SettingsPage {
    /// Whether the page shows these settings.
    pub open spec fn shows(
        self,
        config: Config,
        monitors: Seq<MonitorInfo>,
        devices: Seq<AudioDeviceInfo>,
        default_clips_dir: Seq<char>,
    ) -> bool {
        &&& crate::text::views(self.display_names@) == seq!["Primary display"@]
            + monitors.map_values(|m: MonitorInfo| super::games::display_text(m))
        &&& self.display_index == super::games::display_index_of(monitors, config.capture.display@)
        &&& self.encoder_index == super::encoder_index(config.capture.encoder)
        &&& self.fps == crate::numbers::as_i32(config.capture.fps)
        &&& self.bitrate_kbps == crate::numbers::as_i32(config.capture.bitrate_kbps)
        &&& self.quality_index == super::preset_of(config.capture.fps, config.capture.bitrate_kbps)
        &&& self.show_cursor == config.capture.show_cursor
        &&& self.stretch == config.capture.stretch
        &&& self.capture_api_index == (if config.capture.api == CaptureApi::DesktopDuplication {
            0int
        } else {
            1
        })
        &&& self.general == general_page(config.general)
        &&& (self.replay_length_value as int, self.replay_unit_index as int) == length_on_page(
            config.replay.length_seconds,
        )
        &&& self.memory_cap_mb == crate::numbers::as_i32(config.replay.memory_cap_mb)
        &&& self.start_on_launch == config.replay.start_on_launch
        &&& self.updates_check == config.updates.check
        &&& self.discord_enabled == config.discord.enabled
        &&& self.discord_show_game == config.discord.show_game
        &&& self.discord_client_id@ == config.discord.client_id@
        &&& self.folders.clips_dir@ == match config.output.clips_dir {
            Some(dir) => dir@,
            None => default_clips_dir,
        }
        &&& self.folders.file_name_pattern@ == config.output.file_name_pattern@
        &&& self.folders.clips_subfolder@ == config.output.clips_subfolder@
        &&& self.folders.recording_subfolder@ == config.recording.subfolder@
        &&& self.folders.edited_subfolder@ == config.output.edited_subfolder@
        &&& self.audio_enabled == config.audio.enabled
        &&& self.separate_tracks == config.audio.separate_tracks
        &&& self.audio_bitrate_kbps == crate::numbers::as_i32(config.audio.bitrate_kbps)
        &&& super::audio::row_views(self.audio_sources@) == super::audio::rows_of(
            config.audio.sources@,
            devices,
        )
        &&& self.games_scope_index == (if config.games.scope == CaptureScope::Global {
            0int
        } else {
            1
        })
        &&& crate::text::views(self.profile_display_names@) == seq![
            "Use the global display"@,
            "Primary display"@,
        ] + monitors.map_values(|m: MonitorInfo| m.name@)
        &&& super::games::profile_row_views(self.game_profiles@)
            == config.games.profiles@.map_values(super::games::profile_row(monitors))
        &&& self.hotkeys@ == config.hotkeys.bindings@.map_values(
            |b: crate::config::HotkeyBinding| super::row_of(b),
        )
        &&& self.listening_action == -1
    }
}

/// Fills the settings page from a config. `default_clips_dir` is shown when
/// the config has no explicit folder so the user sees where clips go.
pub fn populate(
    config: &Config,
    monitors: &Vec<MonitorInfo>,
    audio_devices: &Vec<AudioDeviceInfo>,
    default_clips_dir: &str,
) -> (r: SettingsPage)
    requires
        monitors.len() < i32::MAX - 1,
    ensures
        r.shows(*config, monitors@, audio_devices@, default_clips_dir@),
{
    let seconds: u32 = config.replay.length_seconds;
    let in_minutes = seconds >= 60 && seconds % 60 == 0;
    let g = &config.general;
    let general = GeneralPage {
        launch_on_startup: g.launch_on_startup,
        clip_sound: g.clip_sound,
        clip_toast: g.clip_toast,
        animations: g.animations,
        language_index: index_of_language(g.language),
        start_minimized: g.start_minimized,
    };
    let folders = FoldersPage {
        clips_dir: match &config.output.clips_dir {
            Some(dir) => dir.clone(),
            None => default_clips_dir.to_owned(),
        },
        file_name_pattern: config.output.file_name_pattern.clone(),
        clips_subfolder: config.output.clips_subfolder.clone(),
        recording_subfolder: config.recording.subfolder.clone(),
        edited_subfolder: config.output.edited_subfolder.clone(),
    };
    SettingsPage {
        display_names: display_names(monitors),
        display_index: display_index(monitors, &config.capture.display),
        encoder_index: index_of_encoder(config.capture.encoder),
        fps: to_i32(config.capture.fps),
        bitrate_kbps: to_i32(config.capture.bitrate_kbps),
        quality_index: quality_index(config.capture.fps, config.capture.bitrate_kbps),
        show_cursor: config.capture.show_cursor,
        stretch: config.capture.stretch,
        capture_api_index: match config.capture.api {
            CaptureApi::DesktopDuplication => 0,
            CaptureApi::GraphicsCapture => 1,
        },
        general,
        replay_length_value: to_i32(
            if in_minutes {
                seconds / 60
            } else {
                seconds
            },
        ),
        replay_unit_index: if in_minutes {
            1
        } else {
            0
        },
        memory_cap_mb: to_i32(config.replay.memory_cap_mb),
        start_on_launch: config.replay.start_on_launch,
        updates_check: config.updates.check,
        discord_enabled: config.discord.enabled,
        discord_show_game: config.discord.show_game,
        discord_client_id: config.discord.client_id.clone(),
        folders,
        audio_enabled: config.audio.enabled,
        separate_tracks: config.audio.separate_tracks,
        audio_bitrate_kbps: to_i32(config.audio.bitrate_kbps),
        audio_sources: audio_rows(&config.audio.sources, audio_devices),
        games_scope_index: match config.games.scope {
            CaptureScope::Global => 0,
            CaptureScope::PerGame => 1,
        },
        profile_display_names: set_profile_display_names(monitors),
        game_profiles: set_game_profiles(&config.games.profiles, monitors),
        hotkeys: set_hotkeys(&config.hotkeys.bindings),
        listening_action: -1,
    }
}

/// Shows the displays, with the selected one.
pub fn set_monitors(
    page: &mut SettingsPage,
    monitors: &Vec<MonitorInfo>,
    selected: &DisplaySelection,
)
    requires
        monitors.len() < i32::MAX,
    ensures
        crate::text::views(final(page).display_names@) == seq!["Primary display"@]
            + monitors@.map_values(|m: MonitorInfo| super::games::display_text(m)),
        final(page).display_index == super::games::display_index_of(monitors@, selected@),
        *final(page) == (SettingsPage {
            display_names: final(page).display_names,
            display_index: final(page).display_index,
            ..*old(page)
        }),
{
    page.display_names = display_names(monitors);
    page.display_index = display_index(monitors, selected);
}

/// Shows the audio sources of the settings among the devices that are
/// connected. Edits already made on the page are kept for rows that still
/// exist.
pub fn set_audio_sources(
    page: &mut SettingsPage,
    config: &Config,
    devices: &Vec<AudioDeviceInfo>,
)
    ensures
        super::audio::row_views(final(page).audio_sources@) == super::audio::rows_of(
            config.audio.sources@,
            devices@,
        ).map_values(super::audio::as_edited(super::audio::row_views(old(page).audio_sources@))),
        *final(page) == (SettingsPage { audio_sources: final(page).audio_sources, ..*old(page) }),
{
    page.audio_sources = keep_edits(
        &page.audio_sources,
        audio_rows(&config.audio.sources, devices),
    );
}

/// Whether `config` is what the page means, starting from `base`.
/// `default_clips_dir` is the folder that is used without a setting.
pub open spec fn is_collected(
    config: Config,
    page: SettingsPage,
    base: Config,
    monitors: Seq<MonitorInfo>,
    default_clips_dir: Seq<char>,
) -> bool {
    let bindings = page.hotkeys@.map_values(|row: HotkeyRow| super::binding_of(row));
    let length = length_of_page(page.replay_length_value as int, page.replay_unit_index as int);
    let longest = super::longest_save(bindings);
    &&& config.capture.display@ == super::games::display_at(monitors, page.display_index as int)
    &&& config.capture.encoder == super::encoder_at(page.encoder_index as int)
    &&& config.capture.fps == at_least_one(page.fps as int)
    &&& config.capture.bitrate_kbps == at_least_one(page.bitrate_kbps as int)
    &&& config.capture.show_cursor == page.show_cursor
    &&& config.capture.stretch == page.stretch
    &&& config.capture.api == (if page.capture_api_index == 1 {
        CaptureApi::GraphicsCapture
    } else {
        CaptureApi::DesktopDuplication
    })
    &&& config.capture.method == base.capture.method
    &&& config.general == general_of(page.general, base.general)
    &&& config.replay.length_seconds == if longest > length {
        longest as int
    } else {
        length
    }
    &&& config.replay.memory_cap_mb == at_least_one(page.memory_cap_mb as int)
    &&& config.replay.start_on_launch == page.start_on_launch
    &&& config.replay.temp_dir == base.replay.temp_dir
    &&& config.updates.check == page.updates_check
    &&& config.discord.enabled == page.discord_enabled
    &&& config.discord.show_game == page.discord_show_game
    &&& config.discord.client_id@ == crate::text::trimmed(page.discord_client_id@)
    &&& crate::engine::model::text_view(config.output.clips_dir) == crate::paths::chosen_folder(
        page.folders.clips_dir@,
        default_clips_dir,
    )
    &&& config.output.file_name_pattern@ == crate::text::trimmed(page.folders.file_name_pattern@)
    &&& config.output.clips_subfolder@ == crate::text::trimmed(page.folders.clips_subfolder@)
    &&& config.recording.subfolder@ == crate::text::trimmed(page.folders.recording_subfolder@)
    &&& config.output.edited_subfolder@ == crate::text::trimmed(page.folders.edited_subfolder@)
    &&& config.audio.enabled == page.audio_enabled
    &&& config.audio.separate_tracks == page.separate_tracks
    &&& config.audio.bitrate_kbps == at_least_one(page.audio_bitrate_kbps as int)
    &&& super::audio::source_views(config.audio.sources@) == super::audio::sources_of(
        super::audio::row_views(page.audio_sources@),
    )
    &&& config.games.scope == (if page.games_scope_index == 1 {
        CaptureScope::PerGame
    } else {
        CaptureScope::Global
    })
    &&& super::games::profile_views(config.games.profiles@) == super::games::profiles_of(
        super::games::profile_row_views(page.game_profiles@),
        monitors,
        base.games.profiles@,
    )
    &&& config.hotkeys.bindings@ == bindings
}

/// The shortest replay buffer in seconds.
pub const SHORTEST_BUFFER: u32 = 5;

/// The longest replay buffer in seconds.
pub const LONGEST_BUFFER: u32 = 1200;

/// The settings once they were looked at as a whole. `verdict` is what the
/// check of the settings says of those that were collected; it does not count
/// when none were. Settings that fail it are refused with its words, and so is
/// a buffer that is too short or too long.
pub fn validated(collected: Result<Config, String>, verdict: Result<(), String>) -> (r: Result<
    Config,
    String,
>)
    ensures
        match collected {
            Err(problem) => r == Err::<Config, String>(problem),
            Ok(config) => match verdict {
                Err(problem) => r == Err::<Config, String>(problem),
                Ok(_) => if SHORTEST_BUFFER <= config.replay.length_seconds <= LONGEST_BUFFER {
                    r == Ok::<Config, String>(config)
                } else {
                    r matches Err(problem) && problem@
                        == "the replay length must be between 5 and 1200 seconds"@
                },
            },
        },
{
    match (collected, verdict) {
        (Err(problem), _) => Err(problem),
        (Ok(_), Err(problem)) => Err(problem),
        (Ok(config), Ok(())) => if config.replay.length_seconds >= SHORTEST_BUFFER
            && config.replay.length_seconds <= LONGEST_BUFFER {
            Ok(config)
        } else {
            Err("the replay length must be between 5 and 1200 seconds".to_owned())
        },
    }
}

/// Builds a config from the page, starting from `base` so that settings the
/// page does not show survive untouched. `default_clips_dir` is the folder that
/// is used without a setting. A save hotkey longer than the buffer would be capped, so the buffer follows the longest one instead
/// of asking for a second edit. A hotkey row without a meaning is refused; what
/// else makes settings invalid is left to [`validated`].
pub fn collect(
    page: &SettingsPage,
    base: Config,
    monitors: &Vec<MonitorInfo>,
    default_clips_dir: &str,
) -> (r: Result<Config, String>)
    ensures
        match r {
            Ok(config) => super::all_bound(page.hotkeys@) && is_collected(
                config,
                *page,
                base,
                monitors@,
                default_clips_dir@,
            ),
            Err(text) => exists|i: int|
                0 <= i < page.hotkeys.len() && super::all_bound(page.hotkeys@.take(i)) && (
                #[trigger] page.hotkeys@[i]).binding is Err && text@ == "Hotkey "@
                    + crate::text::dec((i + 1) as nat) + ": "@ + page.hotkeys@[i].binding->Err_0@,
        },
{
    let ghost before = base;
    let bindings = match collect_hotkeys(&page.hotkeys) {
        Ok(bindings) => bindings,
        Err(text) => return Err(text),
    };
    let mut config = base;

    config.capture.display = selected_display(page.display_index, monitors);
    config.capture.encoder = encoder_of_index(page.encoder_index);
    config.capture.fps = positive(page.fps);
    config.capture.bitrate_kbps = positive(page.bitrate_kbps);
    config.capture.show_cursor = page.show_cursor;
    config.capture.stretch = page.stretch;
    config.capture.api = if page.capture_api_index == 1 {
        CaptureApi::GraphicsCapture
    } else {
        CaptureApi::DesktopDuplication
    };
    config.general = GeneralConfig {
        launch_on_startup: page.general.launch_on_startup,
        clip_sound: page.general.clip_sound,
        clip_toast: page.general.clip_toast,
        animations: page.general.animations,
        language: language_of_index(page.general.language_index),
        start_minimized: page.general.start_minimized,
        intro_done: config.general.intro_done,
    };

    let value: u32 = positive(page.replay_length_value);
    let length: u32 = if page.replay_unit_index == 1 {
        saturating_minutes(value)
    } else {
        value
    };
    let longest: u32 = find_longest_save(&bindings);
    config.replay.length_seconds = if longest > length {
        longest
    } else {
        length
    };
    config.replay.memory_cap_mb = positive(page.memory_cap_mb);
    config.replay.start_on_launch = page.start_on_launch;
    config.updates = UpdatesConfig { check: page.updates_check };
    config.discord.enabled = page.discord_enabled;
    config.discord.show_game = page.discord_show_game;
    config.discord.client_id = trim(page.discord_client_id.as_str());

    config.output.clips_dir = choose_folder(page.folders.clips_dir.as_str(), default_clips_dir);
    config.output.file_name_pattern = trim(page.folders.file_name_pattern.as_str());
    config.output.clips_subfolder = trim(page.folders.clips_subfolder.as_str());
    config.recording.subfolder = trim(page.folders.recording_subfolder.as_str());
    config.output.edited_subfolder = trim(page.folders.edited_subfolder.as_str());

    config.audio.enabled = page.audio_enabled;
    config.audio.separate_tracks = page.separate_tracks;
    config.audio.bitrate_kbps = positive(page.audio_bitrate_kbps);
    config.audio.sources = collect_audio_sources(&page.audio_sources);

    config.games.scope = if page.games_scope_index == 1 {
        CaptureScope::PerGame
    } else {
        CaptureScope::Global
    };
    config.games.profiles = collect_game_profiles(
        &page.game_profiles,
        monitors,
        &config.games.profiles,
    );
    config.hotkeys.bindings = bindings;
    Ok(config)
}

/// A hotkey that the page can show: at most an hour and 59 seconds back for a
/// saved clip, no length for anything else.
pub open spec fn fits_page(b: crate::config::HotkeyBinding) -> bool {
    if b.action == crate::config::HotkeyActionKind::SaveReplay {
        b.seconds <= 3659
    } else {
        b.seconds == 0
    }
}

/// A hotkey survives its row.
pub proof fn hotkeys_survive_their_rows(bindings: Seq<crate::config::HotkeyBinding>)
    requires
        forall|i: int| 0 <= i < bindings.len() ==> fits_page(#[trigger] bindings[i]),
    ensures
        bindings.map_values(|b: crate::config::HotkeyBinding| super::row_of(b)).map_values(
            |row: HotkeyRow| super::binding_of(row),
        ) == bindings,
{
    let rows = bindings.map_values(|b: crate::config::HotkeyBinding| super::row_of(b));
    let back = rows.map_values(|row: HotkeyRow| super::binding_of(row));
    assert forall|i: int| 0 <= i < bindings.len() implies #[trigger] back[i] == bindings[i] by {
        assert(fits_page(bindings[i]));
        let b = bindings[i];
        assert(b.seconds / 60 <= 71582788);
    }
    assert(back =~= bindings);
}

/// A length of the replay buffer survives the page.
pub proof fn lengths_survive_the_page(seconds: u32)
    requires
        1 <= seconds <= i32::MAX,
    ensures
        length_of_page(length_on_page(seconds).0, length_on_page(seconds).1) == seconds,
{
}

/// Settings that the page can show: numbers that are positive and fit,
/// hotkeys that fit and are no longer than the buffer, a connected display,
/// and texts without white space around them.
pub open spec fn fits(
    config: Config,
    monitors: Seq<MonitorInfo>,
    default_clips_dir: Seq<char>,
) -> bool {
    &&& 1 <= config.capture.fps <= i32::MAX
    &&& 1 <= config.capture.bitrate_kbps <= i32::MAX
    &&& 1 <= config.replay.length_seconds <= i32::MAX
    &&& 1 <= config.replay.memory_cap_mb <= i32::MAX
    &&& 1 <= config.audio.bitrate_kbps <= i32::MAX
    &&& forall|i: int|
        0 <= i < config.hotkeys.bindings.len() ==> fits_page(
            #[trigger] config.hotkeys.bindings@[i],
        )
    &&& super::longest_save(config.hotkeys.bindings@) <= config.replay.length_seconds
    &&& config.capture.display@ matches crate::config::DisplayView::Monitor(id)
        ==> crate::config::lists_monitor(monitors, id)
    &&& crate::text::trimmed(config.discord.client_id@) == config.discord.client_id@
    &&& crate::text::trimmed(config.output.file_name_pattern@) == config.output.file_name_pattern@
    &&& crate::text::trimmed(config.output.clips_subfolder@) == config.output.clips_subfolder@
    &&& crate::text::trimmed(config.recording.subfolder@) == config.recording.subfolder@
    &&& crate::text::trimmed(config.output.edited_subfolder@) == config.output.edited_subfolder@
    &&& match config.output.clips_dir {
        Some(dir) => crate::paths::chosen_folder(dir@, default_clips_dir) == Some(dir@),
        None => crate::paths::chosen_folder(default_clips_dir, default_clips_dir) is None,
    }
}

/// Opening the settings page and saving it without an edit changes nothing but
/// what has rows of its own on the page: the audio sources and the games.
#[verifier::spinoff_prover]
#[verifier::rlimit(40)]
pub proof fn settings_survive_the_page(
    config: Config,
    page: SettingsPage,
    saved: Config,
    monitors: Seq<MonitorInfo>,
    devices: Seq<AudioDeviceInfo>,
    default_clips_dir: Seq<char>,
)
    requires
        fits(config, monitors, default_clips_dir),
        page.shows(config, monitors, devices, default_clips_dir),
        is_collected(saved, page, config, monitors, default_clips_dir),
    ensures
        saved.capture.display@ == config.capture.display@,
        saved.capture == (crate::config::CaptureConfig {
            display: saved.capture.display,
            ..config.capture
        }),
        saved.general == config.general,
        saved.replay == config.replay,
        saved.updates == config.updates,
        saved.discord.enabled == config.discord.enabled,
        saved.discord.show_game == config.discord.show_game,
        saved.discord.client_id@ == config.discord.client_id@,
        crate::engine::model::text_view(saved.output.clips_dir) == crate::engine::model::text_view(
            config.output.clips_dir,
        ),
        saved.output.file_name_pattern@ == config.output.file_name_pattern@,
        saved.output.clips_subfolder@ == config.output.clips_subfolder@,
        saved.output.edited_subfolder@ == config.output.edited_subfolder@,
        saved.recording.subfolder@ == config.recording.subfolder@,
        saved.audio.enabled == config.audio.enabled,
        saved.audio.separate_tracks == config.audio.separate_tracks,
        saved.audio.bitrate_kbps == config.audio.bitrate_kbps,
        saved.games.scope == config.games.scope,
        saved.hotkeys.bindings@ == config.hotkeys.bindings@,
{
    super::games::displays_are_found_by_index(monitors, config.capture.display@);
    hotkeys_survive_their_rows(config.hotkeys.bindings@);
    lengths_survive_the_page(config.replay.length_seconds);
    assert(saved.general == config.general);
}

/// The buffer is never shorter than the longest clip that a hotkey saves.
pub proof fn the_buffer_covers_every_save_hotkey(
    page: SettingsPage,
    base: Config,
    saved: Config,
    monitors: Seq<MonitorInfo>,
    default_clips_dir: Seq<char>,
    i: int,
)
    requires
        is_collected(saved, page, base, monitors, default_clips_dir),
        0 <= i < saved.hotkeys.bindings.len(),
        saved.hotkeys.bindings@[i].action == crate::config::HotkeyActionKind::SaveReplay,
    ensures
        saved.hotkeys.bindings@[i].seconds <= saved.replay.length_seconds,
{
    longest_is_longest(saved.hotkeys.bindings@, i);
}

proof fn longest_is_longest(bindings: Seq<crate::config::HotkeyBinding>, i: int)
    requires
        0 <= i < bindings.len(),
        bindings[i].action == crate::config::HotkeyActionKind::SaveReplay,
    ensures
        bindings[i].seconds <= super::longest_save(bindings),
    decreases bindings.len(),
{
    if i < bindings.len() - 1 {
        longest_is_longest(bindings.drop_last(), i);
    }
}

} // verus!
