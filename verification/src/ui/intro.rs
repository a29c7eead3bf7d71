//! The first start walkthrough: key, capture scope, clip length and folder.
//! Shown over the window until it is finished or skipped, then never again.
use vstd::prelude::*;

use super::window::first_of;
use crate::config::{CaptureScope, Config, Hotkey, HotkeyActionKind, HotkeyBinding};
use crate::numbers::to_i32;
use crate::paths::choose_folder;

verus! {

/// The number by which the walkthrough listens for a key; the rows of the
/// settings page never reach it.
pub const HOTKEY_ACTION: i32 = 200;

/// The answers on the walkthrough.
#[derive(Debug)]
pub struct IntroPage {
    pub hotkey: Hotkey,
    pub minutes: i32,
    pub seconds: i32,
    /// Zero for capture per game, one for always.
    pub scope_index: i32,
    pub clips_dir: String,
    pub visible: bool,
}

/// The save hotkey that the walkthrough starts from.
pub open spec fn save_binding(config: Config, fallback: HotkeyBinding) -> HotkeyBinding {
    match crate::lists::first_where(
        config.hotkeys.bindings@,
        super::window::has_action(HotkeyActionKind::SaveReplay),
    ) {
        Some(i) => config.hotkeys.bindings@[i],
        None => fallback,
    }
}

/// The clip length that the walkthrough starts from.
pub open spec fn intro_seconds(config: Config, fallback: HotkeyBinding) -> u32 {
    let save = save_binding(config, fallback);
    if save.seconds > 0 {
        save.seconds
    } else {
        config.replay.length_seconds
    }
}

/// The walkthrough as it starts. `fallback` is the save hotkey where none is
/// set, `clips_dir` the folder that is in use.
pub fn open(config: &Config, fallback: HotkeyBinding, clips_dir: String) -> (r: IntroPage)
    ensures
        r.hotkey == save_binding(*config, fallback).binding,
        r.minutes == crate::numbers::as_i32((intro_seconds(*config, fallback) / 60) as u32),
        r.seconds == intro_seconds(*config, fallback) % 60,
        r.scope_index == (if config.games.scope == CaptureScope::Global {
            1int
        } else {
            0
        }),
        r.clips_dir == clips_dir,
        r.visible == !config.general.intro_done,
{
    let save = match first_of(&config.hotkeys.bindings, HotkeyActionKind::SaveReplay) {
        Some(binding) => binding,
        None => fallback,
    };
    let seconds: u32 = if save.seconds > 0 {
        save.seconds
    } else {
        config.replay.length_seconds
    };
    IntroPage {
        hotkey: save.binding,
        minutes: to_i32(seconds / 60),
        seconds: (seconds % 60) as i32,
        scope_index: if config.games.scope == CaptureScope::Global {
            1
        } else {
            0
        },
        clips_dir,
        visible: !config.general.intro_done,
    }
}

/// The clip length that the answers mean.
pub open spec fn answered_seconds(page: IntroPage) -> int {
    crate::settings::clamped(page.minutes as int, 0, 60) * 60 + crate::settings::clamped(
        page.seconds as int,
        0,
        59,
    )
}

/// The bindings after the walkthrough: the first save hotkey gets the answers,
/// a new one in front of all others does where there is none.
pub open spec fn answered_bindings(
    bindings: Seq<HotkeyBinding>,
    hotkey: Hotkey,
    seconds: u32,
) -> Seq<HotkeyBinding> {
    let answer = HotkeyBinding { binding: hotkey, action: HotkeyActionKind::SaveReplay, seconds };
    match crate::lists::first_where(
        bindings,
        super::window::has_action(HotkeyActionKind::SaveReplay),
    ) {
        Some(i) => bindings.update(i, answer),
        None => bindings.insert(0, answer),
    }
}

fn answer_bindings(bindings: &mut Vec<HotkeyBinding>, hotkey: Hotkey, seconds: u32)
    ensures
        final(bindings)@ == answered_bindings(old(bindings)@, hotkey, seconds),
{
    let ghost p = super::window::has_action(HotkeyActionKind::SaveReplay);
    let answer = HotkeyBinding { binding: hotkey, action: HotkeyActionKind::SaveReplay, seconds };
    let mut i: usize = 0;
    while i < bindings.len()
        invariant
            i <= bindings.len(),
            bindings@ == old(bindings)@,
            p == super::window::has_action(HotkeyActionKind::SaveReplay),
            answer == (HotkeyBinding {
                binding: hotkey,
                action: HotkeyActionKind::SaveReplay,
                seconds,
            }),
            forall|k: int| 0 <= k < i ==> !p(#[trigger] bindings@[k]),
        decreases bindings.len() - i,
    {
        if bindings[i].action == HotkeyActionKind::SaveReplay {
            proof {
                crate::lists::first_where_is_first(old(bindings)@, p);
                assert(p(bindings@[i as int]));
            }
            bindings.set(i, answer);
            return ;
        }
        i = i + 1;
    }
    proof {
        crate::lists::first_where_is_first(old(bindings)@, p);
    }
    bindings.insert(0, answer);
}

fn clamp(value: i32, low: i32, high: i32) -> (r: u32)
    requires
        0 <= low <= high,
    ensures
        r == crate::settings::clamped(value as int, low as int, high as int),
{
    if value < low {
        low as u32
    } else if value > high {
        high as u32
    } else {
        value as u32
    }
}

/// Whether settings become `b` by the answers of the walkthrough.
pub open spec fn is_finished(
    a: Config,
    page: IntroPage,
    default_clips_dir: Seq<char>,
    b: Config,
) -> bool {
    let seconds = answered_seconds(page);
    &&& b.hotkeys.bindings@ == answered_bindings(
        a.hotkeys.bindings@,
        page.hotkey,
        seconds as u32,
    )
    &&& b.replay.length_seconds == (if seconds > 0 {
        seconds
    } else {
        a.replay.length_seconds as int
    })
    &&& b.games.scope == (if page.scope_index == 1 {
        CaptureScope::Global
    } else {
        CaptureScope::PerGame
    })
    &&& crate::engine::model::text_view(b.output.clips_dir) == crate::paths::chosen_folder(
        page.clips_dir@,
        default_clips_dir,
    )
    &&& b.general == (crate::config::GeneralConfig { intro_done: true, ..a.general })
    &&& b.capture == a.capture
    &&& b.replay == (crate::config::ReplayConfig {
        length_seconds: b.replay.length_seconds,
        ..a.replay
    })
    &&& b.updates == a.updates
    &&& b.discord == a.discord
    &&& b.output == (crate::config::OutputConfig { clips_dir: b.output.clips_dir, ..a.output })
    &&& b.recording == a.recording
    &&& b.audio == a.audio
    &&& b.games == (crate::config::GamesConfig { scope: b.games.scope, ..a.games })
}

/// Takes the answers of the walkthrough over into the settings.
/// `default_clips_dir` is the folder that is used without a setting. Settings that are then found invalid are not applied, and the
/// walkthrough stays open.
pub fn finish(config: &mut Config, page: &IntroPage, default_clips_dir: &str)
    ensures
        is_finished(*old(config), *page, default_clips_dir@, *final(config)),
{
    let minutes: u32 = clamp(page.minutes, 0, 60);
    let rest: u32 = clamp(page.seconds, 0, 59);
    let seconds: u32 = minutes * 60 + rest;
    answer_bindings(&mut config.hotkeys.bindings, page.hotkey, seconds);
    if seconds > 0 {
        config.replay.length_seconds = seconds;
    }
    config.games.scope = if page.scope_index == 1 {
        CaptureScope::Global
    } else {
        CaptureScope::PerGame
    };
    config.output.clips_dir = choose_folder(page.clips_dir.as_str(), default_clips_dir);
    config.general.intro_done = true;
}

/// Takes the key over that was pressed while the walkthrough listened.
pub fn set_hotkey(page: &mut IntroPage, hotkey: Hotkey)
    ensures
        *final(page) == (IntroPage { hotkey, ..*old(page) }),
{
    page.hotkey = hotkey;
}

/// Takes over that the walkthrough was skipped: it is never shown again.
pub fn skip(config: &mut Config)
    ensures
        *final(config) == (Config {
            general: crate::config::GeneralConfig { intro_done: true, ..old(config).general },
            ..*old(config)
        }),
{
    config.general.intro_done = true;
}

/// The walkthrough is shown until it is finished, then never again.
pub proof fn a_finished_walkthrough_stays_away(
    a: Config,
    page: IntroPage,
    default_clips_dir: Seq<char>,
    b: Config,
)
    requires
        is_finished(a, page, default_clips_dir, b),
    ensures
        b.general.intro_done,
{
}

/// After the walkthrough there is a save hotkey, and the buffer is long enough
/// for it.
pub proof fn the_answers_leave_a_save_hotkey(
    a: Config,
    page: IntroPage,
    default_clips_dir: Seq<char>,
    b: Config,
)
    requires
        is_finished(a, page, default_clips_dir, b),
    ensures
        exists|i: int|
            0 <= i < b.hotkeys.bindings.len() && (#[trigger] b.hotkeys.bindings@[i]).action
                == HotkeyActionKind::SaveReplay && b.hotkeys.bindings@[i].binding == page.hotkey
                && b.hotkeys.bindings@[i].seconds <= b.replay.length_seconds,
{
    let p = super::window::has_action(HotkeyActionKind::SaveReplay);
    let before = a.hotkeys.bindings@;
    crate::lists::first_where_is_first(before, p);
    match crate::lists::first_where(before, p) {
        Some(i) => {
            assert(b.hotkeys.bindings@[i].binding == page.hotkey);
        },
        None => {
            assert(b.hotkeys.bindings@[0].binding == page.hotkey);
        },
    }
}

/// The walkthrough starts with the length of the save hotkey, or with that of the
/// buffer where the hotkey saves everything.
pub proof fn the_walkthrough_starts_with_the_save_length(
    config: Config,
    fallback: HotkeyBinding,
    k: int,
)
    requires
        0 <= k < config.hotkeys.bindings.len(),
        config.hotkeys.bindings@[k].action == HotkeyActionKind::SaveReplay,
        forall|j: int|
            0 <= j < k ==> (#[trigger] config.hotkeys.bindings@[j]).action
                != HotkeyActionKind::SaveReplay,
    ensures
        save_binding(config, fallback) == config.hotkeys.bindings@[k],
        config.hotkeys.bindings@[k].seconds > 0 ==> intro_seconds(config, fallback)
            == config.hotkeys.bindings@[k].seconds,
        config.hotkeys.bindings@[k].seconds == 0 ==> intro_seconds(config, fallback)
            == config.replay.length_seconds,
{
    let p = super::window::has_action(HotkeyActionKind::SaveReplay);
    crate::lists::first_where_is_first(config.hotkeys.bindings@, p);
    assert(p(config.hotkeys.bindings@[k]));
}

} // verus!
