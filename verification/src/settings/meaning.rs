//! What the settings page means: which settings its rows stand for, what it
//! keeps, and when two settings differ.
use vstd::prelude::*;

use super::audio::{configured_source, device_row, rows_of, sources_of,
    SourceRowView, SourceView};
use super::changes::{consequences_of, is_same_config};
use super::games::{profiles_of, ProfileRowView};
use super::page::{is_collected, length_of_page, SettingsPage};
use super::{action_at, action_index, binding_of, encoder_at, encoder_index, game_action_at,
    game_action_index, language_at, language_index, longest_save, preset_of, row_of,
    HotkeyRow};
use crate::config::{AudioDeviceInfo, AudioDeviceKind, AudioSourceConfig, CaptureApi, CaptureScope,
    Config, EncoderPreference, GameAction, GameProfile, HotkeyActionKind, HotkeyBinding, Language,
    MonitorInfo};

verus! {

/// Every choice of a list is found again at its place.
pub proof fn choices_are_found_at_their_place(
    encoder: EncoderPreference,
    language: Language,
    action: HotkeyActionKind,
    game: GameAction,
)
    ensures
        encoder_at(encoder_index(encoder)) == encoder,
        language_at(language_index(language)) == language,
        action_at(action_index(action)) == action,
        game_action_at(game_action_index(game)) == game,
{
}

/// The lists start with what holds without a choice, and have each choice at the
/// place where it is shown.
pub proof fn the_lists_are_in_order(index: int)
    ensures
        encoder_at(index) == EncoderPreference::Nvenc <==> index == 1,
        encoder_at(index) == EncoderPreference::QuickSync <==> index == 2,
        encoder_at(index) == EncoderPreference::Amf <==> index == 3,
        encoder_at(index) == EncoderPreference::Software <==> index == 4,
        language_at(index) == Language::Spanish <==> index == 1,
        language_at(index) == Language::French <==> index == 2,
        language_at(index) == Language::German <==> index == 3,
        language_at(index) == Language::Russian <==> index == 4,
        language_at(index) == Language::Portuguese <==> index == 5,
        language_at(index) == Language::Italian <==> index == 6,
        action_at(index) == HotkeyActionKind::ToggleBuffer <==> index == 1,
        action_at(index) == HotkeyActionKind::ToggleRecording <==> index == 2,
        game_action_at(index) == GameAction::Recording <==> index == 1,
        game_action_at(index) == GameAction::Ignore <==> index == 2,
{
}

/// A hotkey row means its key and its action. Only a save reaches back: minutes
/// and seconds as they stand where they make sense, and the nearest that does
/// otherwise.
pub proof fn a_hotkey_row_means_what_it_shows(row: HotkeyRow)
    requires
        row.binding is Ok,
    ensures
        ({
            let b = binding_of(row);
            let saves = row.action_index != 1 && row.action_index != 2;
            &&& b.binding == row.binding->Ok_0
            &&& b.action == HotkeyActionKind::SaveReplay <==> saves
            &&& !saves ==> b.seconds == 0
            &&& saves && 0 <= row.minutes <= 60 && 0 <= row.seconds <= 59 ==> b.seconds
                == row.minutes * 60 + row.seconds
            &&& saves && row.minutes < 0 && row.seconds < 0 ==> b.seconds == 0
            &&& saves && row.minutes > 60 && row.seconds > 59 ==> b.seconds == 3659
            &&& b.seconds <= 3659
        }),
{
}

/// The row of a hotkey shows its length in minutes and seconds.
pub proof fn a_hotkey_is_shown_in_minutes_and_seconds(b: HotkeyBinding)
    requires
        b.seconds <= 3659,
    ensures
        row_of(b).minutes * 60 + row_of(b).seconds == b.seconds,
        0 <= row_of(b).seconds < 60,
        row_of(b).binding == Ok::<crate::config::Hotkey, String>(b.binding),
        action_at(row_of(b).action_index as int) == b.action,
{
}

/// The longest save is that of some hotkey, zero where nothing is saved, and no
/// save is longer.
pub proof fn the_longest_save_is_a_save(bindings: Seq<HotkeyBinding>)
    ensures
        longest_save(bindings) > 0 ==> exists|i: int|
            0 <= i < bindings.len() && (#[trigger] bindings[i]).action
                == HotkeyActionKind::SaveReplay && bindings[i].seconds == longest_save(bindings),
        forall|i: int|
            0 <= i < bindings.len() && (#[trigger] bindings[i]).action
                == HotkeyActionKind::SaveReplay ==> bindings[i].seconds <= longest_save(bindings),
    decreases bindings.len(),
{
    if bindings.len() > 0 {
        let front = bindings.drop_last();
        let rest = longest_save(front);
        the_longest_save_is_a_save(front);
        assert(forall|i: int| 0 <= i < front.len() ==> front[i] == bindings[i]);
        if longest_save(bindings) > 0 {
            if longest_save(bindings) == rest {
                let i = choose|i: int|
                    0 <= i < front.len() && (#[trigger] front[i]).action
                        == HotkeyActionKind::SaveReplay && front[i].seconds == rest;
                assert(bindings[i].seconds == rest);
            } else {
                assert(bindings[bindings.len() - 1].seconds == longest_save(bindings));
            }
        }
        assert forall|i: int|
            0 <= i < bindings.len() && (#[trigger] bindings[i]).action
                == HotkeyActionKind::SaveReplay implies bindings[i].seconds <= longest_save(
            bindings,
        ) by {
            if i < front.len() {
                assert(front[i].seconds <= rest);
            }
        }
    }
}

/// The buffer length on the page is in seconds, or in minutes where that is
/// chosen, and never less than one of them.
pub proof fn a_length_on_the_page_counts_its_unit(value: int, unit: int)
    requires
        value <= i32::MAX,
    ensures
        value >= 1 && unit != 1 ==> length_of_page(value, unit) == value,
        1 <= value <= u32::MAX / 60 && unit == 1 ==> length_of_page(value, unit) == 60 * value,
        value < 1 ==> length_of_page(value, unit) == if unit == 1 {
            60int
        } else {
            1
        },
{
}

/// What the page shows is what is saved: the numbers where they are positive, the
/// switches, and the choices.
pub proof fn the_page_is_what_is_saved(
    saved: Config,
    page: SettingsPage,
    base: Config,
    monitors: Seq<MonitorInfo>,
    default_clips_dir: Seq<char>,
)
    requires
        is_collected(saved, page, base, monitors, default_clips_dir),
    ensures
        page.fps >= 1 ==> saved.capture.fps == page.fps,
        page.bitrate_kbps >= 1 ==> saved.capture.bitrate_kbps == page.bitrate_kbps,
        page.memory_cap_mb >= 1 ==> saved.replay.memory_cap_mb == page.memory_cap_mb,
        page.audio_bitrate_kbps >= 1 ==> saved.audio.bitrate_kbps == page.audio_bitrate_kbps,
        saved.capture.fps >= 1 && saved.capture.bitrate_kbps >= 1,
        saved.capture.show_cursor == page.show_cursor,
        saved.capture.stretch == page.stretch,
        saved.capture.api == CaptureApi::GraphicsCapture <==> page.capture_api_index == 1,
        saved.capture.method == base.capture.method,
        saved.general.launch_on_startup == page.general.launch_on_startup,
        saved.general.clip_sound == page.general.clip_sound,
        saved.general.clip_toast == page.general.clip_toast,
        saved.general.animations == page.general.animations,
        saved.general.start_minimized == page.general.start_minimized,
        saved.general.intro_done == base.general.intro_done,
        saved.replay.start_on_launch == page.start_on_launch,
        saved.replay.temp_dir == base.replay.temp_dir,
        saved.updates.check == page.updates_check,
        saved.discord.enabled == page.discord_enabled,
        saved.discord.show_game == page.discord_show_game,
        saved.audio.enabled == page.audio_enabled,
        saved.audio.separate_tracks == page.separate_tracks,
        saved.games.scope == CaptureScope::PerGame <==> page.games_scope_index == 1,
        saved.hotkeys.bindings.len() == page.hotkeys.len(),
        forall|i: int|
            0 <= i < page.hotkeys.len() && (#[trigger] page.hotkeys@[i]).binding is Ok
                ==> saved.hotkeys.bindings@[i].binding == page.hotkeys@[i].binding->Ok_0,
        forall|i: int|
            0 <= i < saved.hotkeys.bindings.len() && (#[trigger] saved.hotkeys.bindings@[i]).action
                == HotkeyActionKind::SaveReplay ==> saved.hotkeys.bindings@[i].seconds
                <= saved.replay.length_seconds,
        saved.replay.length_seconds >= length_of_page(
            page.replay_length_value as int,
            page.replay_unit_index as int,
        ),
{
    the_longest_save_is_a_save(saved.hotkeys.bindings@);
}

/// Settings that count as the same are the same in everything that they say.
pub proof fn every_changed_setting_is_noticed(a: Config, b: Config)
    requires
        is_same_config(a, b),
    ensures
        a.capture.display@ == b.capture.display@,
        a.capture.encoder == b.capture.encoder,
        a.capture.fps == b.capture.fps,
        a.capture.bitrate_kbps == b.capture.bitrate_kbps,
        a.capture.show_cursor == b.capture.show_cursor,
        a.capture.stretch == b.capture.stretch,
        a.capture.api == b.capture.api,
        a.capture.method == b.capture.method,
        a.general == b.general,
        a.replay.length_seconds == b.replay.length_seconds,
        a.replay.memory_cap_mb == b.replay.memory_cap_mb,
        a.replay.start_on_launch == b.replay.start_on_launch,
        crate::engine::model::text_view(a.replay.temp_dir) == crate::engine::model::text_view(
            b.replay.temp_dir,
        ),
        a.updates.check == b.updates.check,
        a.discord.enabled == b.discord.enabled,
        a.discord.show_game == b.discord.show_game,
        a.discord.client_id@ == b.discord.client_id@,
        crate::engine::model::text_view(a.output.clips_dir) == crate::engine::model::text_view(
            b.output.clips_dir,
        ),
        a.output.file_name_pattern@ == b.output.file_name_pattern@,
        a.output.clips_subfolder@ == b.output.clips_subfolder@,
        a.output.edited_subfolder@ == b.output.edited_subfolder@,
        a.recording.subfolder@ == b.recording.subfolder@,
        a.audio.enabled == b.audio.enabled,
        a.audio.separate_tracks == b.audio.separate_tracks,
        a.audio.bitrate_kbps == b.audio.bitrate_kbps,
        a.audio.sources.len() == b.audio.sources.len(),
        forall|i: int|
            0 <= i < a.audio.sources.len() ==> (#[trigger] a.audio.sources@[i]).id@
                == b.audio.sources@[i].id@ && a.audio.sources@[i].kind == b.audio.sources@[i].kind
                && a.audio.sources@[i].name@ == b.audio.sources@[i].name@
                && a.audio.sources@[i].enabled == b.audio.sources@[i].enabled
                && a.audio.sources@[i].muted == b.audio.sources@[i].muted,
        a.games.scope == b.games.scope,
        a.games.profiles.len() == b.games.profiles.len(),
        a.hotkeys.bindings@ == b.hotkeys.bindings@,
{
    assert(super::games::profile_views(a.games.profiles@).len() == a.games.profiles.len());
    assert(super::games::profile_views(b.games.profiles@).len() == b.games.profiles.len());
    assert forall|i: int| 0 <= i < a.audio.sources.len() implies (
    #[trigger] a.audio.sources@[i]).id@ == b.audio.sources@[i].id@ && a.audio.sources@[i].kind
        == b.audio.sources@[i].kind && a.audio.sources@[i].name@ == b.audio.sources@[i].name@
        && a.audio.sources@[i].enabled == b.audio.sources@[i].enabled && a.audio.sources@[i].muted
        == b.audio.sources@[i].muted by {
        assert(super::changes::is_same_source(a.audio.sources@[i], b.audio.sources@[i]));
    }
}

/// Settings with the same contents count as the same, as long as every volume is
/// a number.
pub proof fn unchanged_settings_are_the_same(a: Config)
    requires
        forall|i: int|
            0 <= i < a.audio.sources.len() ==> (#[trigger] a.audio.sources@[i]).volume % 0x8000_0000
                <= 0x7f80_0000,
    ensures
        is_same_config(a, a),
{
}

/// Only what changed has consequences: the startup entry, the hotkeys and the
/// language, each for itself.
pub proof fn a_change_has_its_own_consequences(a: Config, b: Config)
    ensures
        ({
            let c = consequences_of(a, b);
            &&& c.rebind <==> a.hotkeys.bindings@ != b.hotkeys.bindings@
            &&& c.language is Some <==> a.general.language != b.general.language
            &&& c.language is Some ==> c.language == Some(b.general.language)
            &&& a.general.launch_on_startup != b.general.launch_on_startup ==> c.startup
            &&& a.general.launch_on_startup == b.general.launch_on_startup
                && a.general.start_minimized == b.general.start_minimized ==> !c.startup
            &&& !a.general.launch_on_startup && !b.general.launch_on_startup ==> !c.startup
        }),
{
}

/// Every connected device has a row, under its own name, with the switch, the
/// volume and the mute of its settings; a device without settings is off.
pub proof fn every_device_has_a_row(
    sources: Seq<AudioSourceConfig>,
    devices: Seq<AudioDeviceInfo>,
    d: int,
)
    requires
        0 <= d < devices.len(),
    ensures
        ({
            let row = rows_of(sources, devices)[d];
            &&& rows_of(sources, devices).len() >= devices.len()
            &&& row.id == devices[d].id@
            &&& row.name == devices[d].name@
            &&& row.kind == crate::config::kind_text(devices[d].kind)
            &&& row.connected
            &&& forall|i: int|
                0 <= i < sources.len() && #[trigger] is_first_for(sources, i, devices[d])
                    ==> row.enabled == sources[i].enabled && row.volume == sources[i].volume
                    && row.muted == sources[i].muted
            &&& (forall|i: int|
                0 <= i < sources.len() ==> (#[trigger] sources[i]).id@ != devices[d].id@
                    || sources[i].kind != devices[d].kind) ==> !row.enabled && !row.muted
        }),
{
    let row = rows_of(sources, devices)[d];
    assert(row == device_row(sources)(devices[d]));
    assert forall|i: int|
        0 <= i < sources.len() && #[trigger] is_first_for(sources, i, devices[d]) implies
        row.enabled == sources[i].enabled && row.volume == sources[i].volume && row.muted
        == sources[i].muted by {
        the_first_settings_count(sources, i, devices[d]);
    }
    if forall|i: int|
        0 <= i < sources.len() ==> (#[trigger] sources[i]).id@ != devices[d].id@ || sources[i].kind
            != devices[d].kind {
        no_settings_are_found(sources, devices[d]);
    }
}

/// Whether these are the first settings of a device.
pub open spec fn is_first_for(
    sources: Seq<AudioSourceConfig>,
    i: int,
    device: AudioDeviceInfo,
) -> bool {
    &&& sources[i].id@ == device.id@ && sources[i].kind == device.kind
    &&& forall|k: int|
        0 <= k < i ==> (#[trigger] sources[k]).id@ != device.id@ || sources[k].kind != device.kind
}

proof fn the_first_settings_count(
    sources: Seq<AudioSourceConfig>,
    i: int,
    device: AudioDeviceInfo,
)
    requires
        0 <= i < sources.len(),
        is_first_for(sources, i, device),
    ensures
        configured_source(sources, device.id@, device.kind) == Some(sources[i]),
    decreases sources.len(),
{
    if i > 0 {
        let rest = sources.drop_first();
        assert(forall|k: int| 0 <= k < rest.len() ==> rest[k] == sources[k + 1]);
        assert(sources[0].id@ != device.id@ || sources[0].kind != device.kind);
        the_first_settings_count(rest, i - 1, device);
    }
}

proof fn no_settings_are_found(sources: Seq<AudioSourceConfig>, device: AudioDeviceInfo)
    requires
        forall|i: int|
            0 <= i < sources.len() ==> (#[trigger] sources[i]).id@ != device.id@ || sources[i].kind
                != device.kind,
    ensures
        configured_source(sources, device.id@, device.kind) is None,
    decreases sources.len(),
{
    if sources.len() > 0 {
        let rest = sources.drop_first();
        assert(forall|k: int| 0 <= k < rest.len() ==> rest[k] == sources[k + 1]);
        assert(sources[0].id@ != device.id@ || sources[0].kind != device.kind);
        no_settings_are_found(rest, device);
    }
}

/// A row is saved when it is on, not connected or an application, as it stands;
/// nothing else is.
pub proof fn rows_worth_keeping_are_saved(rows: Seq<SourceRowView>, i: int, k: int)
    requires
        0 <= i < rows.len(),
        0 <= k < sources_of(rows).len(),
    ensures
        rows[i].enabled || !rows[i].connected || rows[i].kind == "app"@ ==> exists|j: int|
            0 <= j < sources_of(rows).len() && is_saved_as(
                rows[i],
                #[trigger] sources_of(rows)[j],
            ),
        exists|j: int|
            0 <= j < rows.len() && is_saved_as(#[trigger] rows[j], sources_of(rows)[k]) && (
            rows[j].enabled || !rows[j].connected || rows[j].kind == "app"@),
{
    let keep = super::audio::is_worth_keeping();
    let kept = rows.filter(keep);
    let saved = sources_of(rows);
    if keep(rows[i]) {
        rows.lemma_filter_contains(keep, i);
        let j = choose|j: int| 0 <= j < kept.len() && kept[j] == rows[i];
        assert(is_saved_as(rows[i], saved[j]));
    }
    rows.lemma_filter_pred(keep, k);
    rows.lemma_filter_contains_rev(keep, kept[k]);
    let j = choose|j: int| 0 <= j < rows.len() && rows[j] == kept[k];
    assert(is_saved_as(rows[j], saved[k]));
}

/// Whether a source is what a row shows.
pub open spec fn is_saved_as(row: SourceRowView, saved: SourceView) -> bool {
    &&& saved.id == row.id
    &&& saved.name == row.name
    &&& saved.enabled == row.enabled
    &&& saved.volume == row.volume
    &&& saved.muted == row.muted
    &&& saved.kind == AudioDeviceKind::Input <==> row.kind == "input"@
    &&& row.kind != "input"@ ==> (saved.kind == AudioDeviceKind::Application <==> row.kind
        == "app"@)
}

/// Every game row with an executable is a profile, in lower case and without
/// white space around it; a length or a folder that is empty overrides nothing.
pub proof fn every_game_row_is_a_profile(
    rows: Seq<ProfileRowView>,
    monitors: Seq<MonitorInfo>,
    previous: Seq<GameProfile>,
    i: int,
)
    requires
        0 <= i < rows.len(),
        crate::text::trimmed(rows[i].exe).len() > 0,
    ensures
        exists|k: int|
            0 <= k < profiles_of(rows, monitors, previous).len() && ({
                let p = #[trigger] profiles_of(rows, monitors, previous)[k];
                let row = rows[i];
                &&& p.exe == crate::text::lowercase(crate::text::trimmed(row.exe))
                &&& p.name == crate::text::trimmed(row.name)
                &&& p.action == game_action_at(row.action_index)
                &&& p.replay_length_seconds is Some <==> row.replay_seconds > 0
                &&& 0 < row.replay_seconds <= u32::MAX ==> p.replay_length_seconds->0
                    == row.replay_seconds
                &&& p.subfolder is Some <==> crate::text::trimmed(row.subfolder).len() > 0
                &&& p.subfolder is Some ==> p.subfolder->0 == crate::text::trimmed(row.subfolder)
                &&& row.display_index <= 0 ==> p.display is None
                &&& row.display_index == 1 ==> p.display == Some(
                    crate::config::DisplayView::Primary,
                )
                &&& 2 <= row.display_index < monitors.len() + 2 ==> p.display == Some(
                    crate::config::DisplayView::Monitor(monitors[row.display_index - 2].id@),
                )
            }),
{
    let p = super::games::has_exe();
    let kept = rows.filter(p);
    rows.lemma_filter_contains(p, i);
    let k = choose|k: int| 0 <= k < kept.len() && kept[k] == rows[i];
    let profile = profiles_of(rows, monitors, previous)[k];
    assert(profile == super::games::profile_of_row(monitors, previous)(rows[i]));
}

/// A row without an executable is no profile: each profile comes from a row that
/// has one.
pub proof fn a_row_without_an_executable_is_dropped(
    rows: Seq<ProfileRowView>,
    monitors: Seq<MonitorInfo>,
    previous: Seq<GameProfile>,
    k: int,
)
    requires
        0 <= k < profiles_of(rows, monitors, previous).len(),
    ensures
        exists|i: int|
            0 <= i < rows.len() && crate::text::trimmed((#[trigger] rows[i]).exe).len() > 0
                && profiles_of(rows, monitors, previous)[k].exe == crate::text::lowercase(
                crate::text::trimmed(rows[i].exe),
            ),
{
    let p = super::games::has_exe();
    let kept = rows.filter(p);
    rows.lemma_filter_pred(p, k);
    rows.lemma_filter_contains_rev(p, kept[k]);
    let i = choose|i: int| 0 <= i < rows.len() && rows[i] == kept[k];
    assert(crate::text::trimmed(rows[i].exe).len() > 0);
}

/// Each quality preset has its frame rate and bitrate; anything else is custom.
pub proof fn presets_are_told_by_rate_and_bitrate(fps: u32, bitrate_kbps: u32)
    ensures
        preset_of(fps, bitrate_kbps) == 0 <==> fps == 30 && bitrate_kbps == 8000,
        preset_of(fps, bitrate_kbps) == 1 <==> fps == 60 && bitrate_kbps == 15000,
        preset_of(fps, bitrate_kbps) == 2 <==> fps == 60 && bitrate_kbps == 30000,
        0 <= preset_of(fps, bitrate_kbps) <= 3,
{
}

} // verus!
