//! Whether two settings are the same, and what a change of them calls for.
use vstd::prelude::*;

use crate::config::{AudioConfig, AudioSourceConfig, CaptureConfig, Config, DiscordConfig,
    GameProfile, GamesConfig, GeneralConfig, HotkeyBinding, Language, OutputConfig, ReplayConfig};
use crate::text::same;

verus! {

/// Whether two optional texts are the same.
pub fn same_option(a: &Option<String>, b: &Option<String>) -> (r: bool)
    ensures
        r == (crate::engine::model::text_view(*a) == crate::engine::model::text_view(*b)),
{
    match (a, b) {
        (Some(x), Some(y)) => same(x.as_str(), y.as_str()),
        (None, None) => true,
        _ => false,
    }
}

/// Whether two `f32`, given by their bits, are equal: the two zeros are, and
/// what is no number equals nothing.
pub open spec fn equal_floats(a: u32, b: u32) -> bool {
    let x = a % 0x8000_0000;
    let y = b % 0x8000_0000;
    x <= 0x7f80_0000 && y <= 0x7f80_0000 && (a == b || x == 0 && y == 0)
}

/// Whether two audio sources are the same.
pub open spec fn is_same_source(a: AudioSourceConfig, b: AudioSourceConfig) -> bool {
    &&& a.id@ == b.id@
    &&& a.name@ == b.name@
    &&& a.kind == b.kind
    &&& a.enabled == b.enabled
    &&& equal_floats(a.volume, b.volume)
    &&& a.muted == b.muted
}

fn same_source(a: &AudioSourceConfig, b: &AudioSourceConfig) -> (r: bool)
    ensures
        r == is_same_source(*a, *b),
{
    let x: u32 = a.volume % 0x8000_0000;
    let y: u32 = b.volume % 0x8000_0000;
    let volume = x <= 0x7f80_0000 && y <= 0x7f80_0000 && (a.volume == b.volume || x == 0 && y
        == 0);
    same(a.id.as_str(), b.id.as_str()) && same(a.name.as_str(), b.name.as_str()) && a.kind
        == b.kind && a.enabled == b.enabled && volume && a.muted == b.muted
}

/// Whether two lists of audio sources are the same.
pub open spec fn are_same_sources(a: Seq<AudioSourceConfig>, b: Seq<AudioSourceConfig>) -> bool {
    a.len() == b.len() && forall|i: int| 0 <= i < a.len() ==> is_same_source(#[trigger] a[i], b[i])
}

fn same_sources(a: &Vec<AudioSourceConfig>, b: &Vec<AudioSourceConfig>) -> (r: bool)
    ensures
        r == are_same_sources(a@, b@),
{
    if a.len() != b.len() {
        return false;
    }
    let mut i: usize = 0;
    while i < a.len()
        invariant
            i <= a.len() == b.len(),
            forall|k: int| 0 <= k < i ==> is_same_source(#[trigger] a@[k], b@[k]),
        decreases a.len() - i,
    {
        if !same_source(&a[i], &b[i]) {
            return false;
        }
        i = i + 1;
    }
    true
}

fn same_display(
    a: &Option<crate::config::DisplaySelection>,
    b: &Option<crate::config::DisplaySelection>,
) -> (r: bool)
    ensures
        r == (super::games::override_view(*a) == super::games::override_view(*b)),
{
    match (a, b) {
        (Some(x), Some(y)) => x.same(y),
        (None, None) => true,
        _ => false,
    }
}

fn same_profile(a: &GameProfile, b: &GameProfile) -> (r: bool)
    ensures
        r == (super::games::profile_view(*a) == super::games::profile_view(*b)),
{
    let method = match (a.capture_method, b.capture_method) {
        (Some(x), Some(y)) => x == y,
        (None, None) => true,
        _ => false,
    };
    let length = match (a.replay_length_seconds, b.replay_length_seconds) {
        (Some(x), Some(y)) => x == y,
        (None, None) => true,
        _ => false,
    };
    same(a.exe.as_str(), b.exe.as_str()) && same(a.name.as_str(), b.name.as_str()) && a.action
        == b.action && length && same_option(&a.subfolder, &b.subfolder) && same_display(
        &a.display,
        &b.display,
    ) && method
}

fn same_profiles(a: &Vec<GameProfile>, b: &Vec<GameProfile>) -> (r: bool)
    ensures
        r == (super::games::profile_views(a@) == super::games::profile_views(b@)),
{
    if a.len() != b.len() {
        assert(super::games::profile_views(a@).len() != super::games::profile_views(b@).len());
        return false;
    }
    let mut i: usize = 0;
    while i < a.len()
        invariant
            i <= a.len() == b.len(),
            forall|k: int|
                0 <= k < i ==> #[trigger] super::games::profile_views(a@)[k]
                    == super::games::profile_views(b@)[k],
        decreases a.len() - i,
    {
        if !same_profile(&a[i], &b[i]) {
            assert(super::games::profile_views(a@)[i as int] != super::games::profile_views(
                b@,
            )[i as int]);
            return false;
        }
        i = i + 1;
    }
    assert(super::games::profile_views(a@) =~= super::games::profile_views(b@));
    true
}

/// Whether two lists of bindings are the same.
pub fn same_bindings(a: &Vec<HotkeyBinding>, b: &Vec<HotkeyBinding>) -> (r: bool)
    ensures
        r == (a@ == b@),
{
    if a.len() != b.len() {
        return false;
    }
    let mut i: usize = 0;
    while i < a.len()
        invariant
            i <= a.len() == b.len(),
            forall|k: int| 0 <= k < i ==> #[trigger] a@[k] == b@[k],
        decreases a.len() - i,
    {
        if a[i] != b[i] {
            return false;
        }
        i = i + 1;
    }
    assert(a@ =~= b@);
    true
}

/// Whether two capture settings are the same.
pub open spec fn is_same_capture(a: CaptureConfig, b: CaptureConfig) -> bool {
    &&& a.display@ == b.display@
    &&& a.encoder == b.encoder
    &&& a.fps == b.fps
    &&& a.bitrate_kbps == b.bitrate_kbps
    &&& a.show_cursor == b.show_cursor
    &&& a.stretch == b.stretch
    &&& a.api == b.api
    &&& a.method == b.method
}

fn same_capture(a: &CaptureConfig, b: &CaptureConfig) -> (r: bool)
    ensures
        r == is_same_capture(*a, *b),
{
    a.display.same(&b.display) && a.encoder == b.encoder && a.fps == b.fps && a.bitrate_kbps
        == b.bitrate_kbps && a.show_cursor == b.show_cursor && a.stretch == b.stretch && a.api
        == b.api && a.method == b.method
}

/// Whether two replay settings are the same.
pub open spec fn is_same_replay(a: ReplayConfig, b: ReplayConfig) -> bool {
    &&& a.length_seconds == b.length_seconds
    &&& a.memory_cap_mb == b.memory_cap_mb
    &&& a.start_on_launch == b.start_on_launch
    &&& crate::engine::model::text_view(a.temp_dir) == crate::engine::model::text_view(b.temp_dir)
}

/// Whether two presence settings are the same.
pub open spec fn is_same_discord(a: DiscordConfig, b: DiscordConfig) -> bool {
    a.enabled == b.enabled && a.show_game == b.show_game && a.client_id@ == b.client_id@
}

/// Whether two output settings are the same.
pub open spec fn is_same_output(a: OutputConfig, b: OutputConfig) -> bool {
    &&& crate::engine::model::text_view(a.clips_dir) == crate::engine::model::text_view(
        b.clips_dir,
    )
    &&& a.file_name_pattern@ == b.file_name_pattern@
    &&& a.clips_subfolder@ == b.clips_subfolder@
    &&& a.edited_subfolder@ == b.edited_subfolder@
}

/// Whether two audio settings are the same.
pub open spec fn is_same_audio(a: AudioConfig, b: AudioConfig) -> bool {
    &&& a.enabled == b.enabled
    &&& a.separate_tracks == b.separate_tracks
    &&& a.bitrate_kbps == b.bitrate_kbps
    &&& are_same_sources(a.sources@, b.sources@)
}

/// Whether two game settings are the same.
pub open spec fn is_same_games(a: GamesConfig, b: GamesConfig) -> bool {
    a.scope == b.scope && super::games::profile_views(a.profiles@) == super::games::profile_views(
        b.profiles@,
    )
}

/// Whether two settings are the same.
pub open spec fn is_same_config(a: Config, b: Config) -> bool {
    &&& is_same_capture(a.capture, b.capture)
    &&& a.general == b.general
    &&& is_same_replay(a.replay, b.replay)
    &&& a.updates.check == b.updates.check
    &&& is_same_discord(a.discord, b.discord)
    &&& is_same_output(a.output, b.output)
    &&& a.recording.subfolder@ == b.recording.subfolder@
    &&& is_same_audio(a.audio, b.audio)
    &&& is_same_games(a.games, b.games)
    &&& a.hotkeys.bindings@ == b.hotkeys.bindings@
}

/// Whether two settings are the same.
pub fn same_config(a: &Config, b: &Config) -> (r: bool)
    ensures
        r == is_same_config(*a, *b),
{
    let replay = a.replay.length_seconds == b.replay.length_seconds && a.replay.memory_cap_mb
        == b.replay.memory_cap_mb && a.replay.start_on_launch == b.replay.start_on_launch
        && same_option(&a.replay.temp_dir, &b.replay.temp_dir);
    let discord = a.discord.enabled == b.discord.enabled && a.discord.show_game
        == b.discord.show_game && same(a.discord.client_id.as_str(), b.discord.client_id.as_str());
    let output = same_option(&a.output.clips_dir, &b.output.clips_dir) && same(
        a.output.file_name_pattern.as_str(),
        b.output.file_name_pattern.as_str(),
    ) && same(a.output.clips_subfolder.as_str(), b.output.clips_subfolder.as_str()) && same(
        a.output.edited_subfolder.as_str(),
        b.output.edited_subfolder.as_str(),
    );
    let audio = a.audio.enabled == b.audio.enabled && a.audio.separate_tracks
        == b.audio.separate_tracks && a.audio.bitrate_kbps == b.audio.bitrate_kbps && same_sources(
        &a.audio.sources,
        &b.audio.sources,
    );
    let games = a.games.scope == b.games.scope && same_profiles(
        &a.games.profiles,
        &b.games.profiles,
    );
    same_capture(&a.capture, &b.capture) && a.general == b.general && replay && a.updates.check
        == b.updates.check && discord && output && same(
        a.recording.subfolder.as_str(),
        b.recording.subfolder.as_str(),
    ) && audio && games && same_bindings(&a.hotkeys.bindings, &b.hotkeys.bindings)
}

/// What a change of the settings calls for.
#[derive(Debug, Clone, Copy, PartialEq, Eq, Structural)]
pub struct Consequences {
    /// The entry that launches the application with the system is written
    /// again.
    pub startup: bool,
    /// The hotkeys are registered again.
    pub rebind: bool,
    /// The window is rebuilt in another language.
    pub language: Option<Language>,
}

/// Whether the entry that launches the application with the system changes.
pub open spec fn startup_changes(a: GeneralConfig, b: GeneralConfig) -> bool {
    a.launch_on_startup != b.launch_on_startup || b.launch_on_startup && a.start_minimized
        != b.start_minimized
}

/// What a change of the settings from `a` to `b` calls for.
pub open spec fn consequences_of(a: Config, b: Config) -> Consequences {
    Consequences {
        startup: startup_changes(a.general, b.general),
        rebind: a.hotkeys.bindings@ != b.hotkeys.bindings@,
        language: if a.general.language != b.general.language {
            Some(b.general.language)
        } else {
            None
        },
    }
}

/// What a change of the settings calls for.
pub fn consequences(current: &Config, next: &Config) -> (r: Consequences)
    ensures
        r == consequences_of(*current, *next),
{
    let a = &current.general;
    let b = &next.general;
    Consequences {
        startup: a.launch_on_startup != b.launch_on_startup || b.launch_on_startup
            && a.start_minimized != b.start_minimized,
        rebind: !same_bindings(&current.hotkeys.bindings, &next.hotkeys.bindings),
        language: if a.language != b.language {
            Some(b.language)
        } else {
            None
        },
    }
}

/// Settings that are the same call for nothing.
pub proof fn the_same_settings_change_nothing(a: Config, b: Config)
    requires
        is_same_config(a, b),
    ensures
        consequences_of(a, b) == (Consequences { startup: false, rebind: false, language: None }),
{
}

} // verus!
