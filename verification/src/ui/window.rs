//! What starts with the application, what the status timer does, and what
//! actions leave on the window.
use vstd::prelude::*;

use super::events::StatusTexts;
use crate::config::{CaptureScope, Config, HotkeyActionKind, HotkeyBinding};
use crate::error::AppError;
use crate::i18n::{tr, Translator};
use crate::settings::key_parts;
use crate::text::join2;

verus! {

/// Whether the buffer starts with the application: the user wants it, and
/// capture does not follow a game.
pub fn starts_buffer(config: &Config) -> (r: bool)
    ensures
        r == (config.replay.start_on_launch && config.games.scope == CaptureScope::Global),
{
    config.replay.start_on_launch && config.games.scope == CaptureScope::Global
}

/// Adds a line to the warning that the window shows after the start.
pub fn add_warning(warning: &mut String, problem: &str)
    ensures
        final(warning)@ == if old(warning)@.len() == 0 {
            problem@
        } else {
            old(warning)@ + "\n"@ + problem@
        },
{
    if warning.as_str().unicode_len() > 0 {
        warning.append("\n");
    } else {
        assert(warning@ + problem@ =~= problem@);
    }
    warning.append(problem);
}

/// What the user is told when no global hotkey can be registered at all.
pub fn hotkeys_unavailable(reason: &str) -> (r: String)
    ensures
        r@ == "Global hotkeys are unavailable: "@ + reason@,
{
    join2("Global hotkeys are unavailable: ", reason)
}

/// The count after one more tick.
pub open spec fn next_tick(ticks: u32) -> u32 {
    if ticks == u32::MAX {
        0
    } else {
        (ticks + 1) as u32
    }
}

/// Whether displays and games are looked for at the tick after this count.
pub open spec fn looks_next(ticks: u32) -> bool {
    next_tick(ticks) % super::MONITOR_REFRESH_TICKS == 0
}

/// Counts a tick of the status timer. Returns whether displays and games are
/// looked for.
pub fn count_tick(ticks: &mut u32) -> (r: bool)
    ensures
        *final(ticks) == next_tick(*old(ticks)),
        r == looks_next(*old(ticks)),
{
    *ticks = if *ticks == u32::MAX {
        0
    } else {
        *ticks + 1
    };
    *ticks % super::MONITOR_REFRESH_TICKS == 0
}

/// What the window shows of an action on the engine: nothing after a success,
/// the error after a failure. There is no outcome without an engine.
pub fn engine_outcome(t: &Translator, outcome: Option<Result<(), AppError>>) -> (r: String)
    ensures
        r@ == match outcome {
            None => t.says("Capture is unavailable on this system."@),
            Some(Ok(_)) => ""@,
            Some(Err(error)) => error.text(),
        },
{
    match outcome {
        None => tr(t, "Capture is unavailable on this system."),
        Some(Ok(_)) => "".to_owned(),
        Some(Err(error)) => error.message(),
    }
}

/// How many seconds a save reaches back: what the hotkey says that asked for
/// it, unknown for a save from elsewhere.
pub fn save_length(bindings: &Vec<HotkeyBinding>, index: Option<usize>) -> (r: Option<u32>)
    ensures
        r == match index {
            Some(i) if i < bindings.len() => Some(bindings@[i as int].seconds),
            _ => None,
        },
{
    match index {
        Some(i) => if i < bindings.len() {
            Some(bindings[i].seconds)
        } else {
            None
        },
        None => None,
    }
}

/// Takes over that a clip is being saved.
pub fn saving_clip(t: &Translator, texts: &mut StatusTexts)
    ensures
        final(texts)@ == (super::events::TextsView {
            save_status: t.says("Saving clip..."@),
            ..old(texts)@
        }),
{
    texts.save_status = tr(t, "Saving clip...");
}

/// The bindings with an action.
pub open spec fn has_action(action: HotkeyActionKind) -> spec_fn(HotkeyBinding) -> bool {
    |b: HotkeyBinding| b.action == action
}

/// The first binding with an action.
pub fn first_of(bindings: &Vec<HotkeyBinding>, action: HotkeyActionKind) -> (r: Option<
    HotkeyBinding,
>)
    ensures
        r == match crate::lists::first_where(bindings@, has_action(action)) {
            Some(i) => Some(bindings@[i]),
            None => None,
        },
{
    let mut i: usize = 0;
    while i < bindings.len()
        invariant
            i <= bindings.len(),
            forall|k: int| 0 <= k < i ==> !has_action(action)(#[trigger] bindings@[k]),
        decreases bindings.len() - i,
    {
        if bindings[i].action == action {
            proof {
                crate::lists::first_where_is_first(bindings@, has_action(action));
                assert(has_action(action)(bindings@[i as int]));
            }
            return Some(bindings[i]);
        }
        i = i + 1;
    }
    proof {
        crate::lists::first_where_is_first(bindings@, has_action(action));
    }
    None
}

/// The keycaps of a hotkey, given by its text; "none" where there is no
/// hotkey.
pub fn keys_of(hotkey: Option<&str>) -> (r: Vec<String>)
    ensures
        match hotkey {
            Some(text) => crate::text::views(r@) == crate::text::split_at_char(
                text@,
                '+',
            ).map_values(|p: Seq<char>| crate::text::uppercase(p)),
            None => crate::text::views(r@) == seq!["none"@],
        },
{
    match hotkey {
        Some(text) => key_parts(text),
        None => {
            let mut out: Vec<String> = Vec::new();
            out.push("none".to_owned());
            assert(crate::text::views(out@) =~= seq!["none"@]);
            out
        },
    }
}

/// The label of the save hotkey, given by its description.
pub fn save_label(description: Option<String>) -> (r: String)
    ensures
        r@ == match description {
            Some(text) => text@,
            None => "no save hotkey set"@,
        },
{
    match description {
        Some(text) => text,
        None => "no save hotkey set".to_owned(),
    }
}

/// Displays and games are looked for at exactly one of any four ticks in a
/// row, also where the count starts over.
pub proof fn every_fourth_tick_looks(ticks: u32)
    ensures
        ({
            let second = next_tick(ticks);
            let third = next_tick(second);
            let fourth = next_tick(third);
            &&& looks_next(ticks) || looks_next(second) || looks_next(third) || looks_next(fourth)
            &&& looks_next(ticks) ==> !looks_next(second) && !looks_next(third) && !looks_next(
                fourth,
            )
            &&& looks_next(second) ==> !looks_next(third) && !looks_next(fourth)
            &&& looks_next(third) ==> !looks_next(fourth)
        }),
{
}

} // verus!
