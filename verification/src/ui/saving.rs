//! Saving the settings page.
use vstd::prelude::*;

use super::intro::HOTKEY_ACTION;
use crate::config::{Config, Hotkey};
use crate::i18n::{tr, tr_with, Translator};
use crate::settings::changes::{consequences, same_config, Consequences};
use crate::settings::SAVE_ACTION_BASE;
use crate::text::{join, join2};

verus! {

/// How saving the page goes on.
#[derive(Debug)]
pub enum SaveStep {
    /// The page holds something that cannot be saved.
    Refused { message: String },
    /// Nothing changed. Refilling the page after a save reports changes too;
    /// they are no-ops.
    Unchanged,
    /// The settings are written.
    Write { next: Config, calls_for: Consequences },
}

/// Decides about what the page holds.
pub fn begin_save(collected: Result<Config, String>, current: &Config) -> (r: SaveStep)
    ensures
        match collected {
            Err(problem) => r == (SaveStep::Refused { message: problem }),
            Ok(next) => if crate::settings::changes::is_same_config(next, *current) {
                r is Unchanged
            } else {
                r == (SaveStep::Write {
                    next,
                    calls_for: crate::settings::changes::consequences_of(*current, next),
                })
            },
        },
{
    match collected {
        Err(problem) => SaveStep::Refused { message: problem },
        Ok(next) => if same_config(&next, current) {
            SaveStep::Unchanged
        } else {
            let calls_for = consequences(current, &next);
            SaveStep::Write { next, calls_for }
        },
    }
}

/// What is said when the settings could not be written.
pub fn write_failed(reason: &str) -> (r: String)
    ensures
        r@ == "Could not save settings: "@ + reason@,
{
    join2("Could not save settings: ", reason)
}

/// A save that is under way: what is still to be done, and what went wrong.
#[derive(Debug)]
pub struct Saving {
    pub rebind: bool,
    pub problems: Vec<String>,
}

/// What the page says after a save.
#[derive(Debug)]
pub struct SaveNotice {
    pub is_error: bool,
    pub text: String,
    /// After how many milliseconds the notice goes away again.
    pub clears_after: Option<u64>,
}

impl Saving {
    /// The settings were written.
    pub fn new(calls_for: Consequences) -> (r: Self)
        ensures
            r.rebind == calls_for.rebind,
            r.problems.len() == 0,
    {
        Saving { rebind: calls_for.rebind, problems: Vec::new() }
    }

    /// Takes over how writing the startup entry went.
    pub fn startup_applied(&mut self, result: Result<(), String>)
        ensures
            final(self).rebind == old(self).rebind,
            final(self).problems@ == match result {
                Ok(_) => old(self).problems@,
                Err(problem) => old(self).problems@.push(problem),
            },
    {
        if let Err(problem) = result {
            self.problems.push(problem);
        }
    }

    /// Takes over how the engine took the settings: whether the hotkeys are
    /// registered again, or why capture could not be restarted.
    pub fn engine_applied(&mut self, result: Result<bool, String>)
        ensures
            match result {
                Ok(needs_rebind) => {
                    &&& final(self).rebind == (old(self).rebind || needs_rebind)
                    &&& final(self).problems == old(self).problems
                },
                Err(reason) => {
                    &&& final(self).rebind == old(self).rebind
                    &&& crate::text::views(final(self).problems@) == crate::text::views(
                        old(self).problems@,
                    ).push("Capture could not be restarted: "@ + reason@)
                },
            },
    {
        match result {
            Ok(needs_rebind) => {
                if needs_rebind {
                    self.rebind = true;
                }
            },
            Err(reason) => {
                self.problems.push(join2("Capture could not be restarted: ", reason.as_str()));
                assert(crate::text::views(self.problems@) =~= crate::text::views(
                    old(self).problems@,
                ).push("Capture could not be restarted: "@ + reason@));
            },
        }
    }

    /// Takes over what was wrong with the hotkeys, if anything was.
    pub fn hotkeys_registered(&mut self, problem: Option<String>)
        ensures
            final(self).rebind == old(self).rebind,
            final(self).problems@ == match problem {
                None => old(self).problems@,
                Some(problem) => old(self).problems@.push(problem),
            },
    {
        if let Some(problem) = problem {
            self.problems.push(problem);
        }
    }

    /// What the page says in the end.
    pub fn finish(&self, t: &Translator) -> (r: SaveNotice)
        ensures
            r.is_error == (self.problems.len() > 0),
            if self.problems.len() == 0 {
                &&& r.text@ == t.says("Settings saved."@)
                &&& r.clears_after == Some(super::SAVED_NOTICE)
            } else {
                &&& r.text@ == crate::text::replaced(
                    t.says("Settings saved. {problems}"@),
                    "{problems}"@,
                    crate::text::joined(crate::text::views(self.problems@), " "@),
                )
                &&& r.clears_after is None
            },
    {
        if self.problems.len() == 0 {
            return SaveNotice {
                is_error: false,
                text: tr(t, "Settings saved."),
                clears_after: Some(super::SAVED_NOTICE),
            };
        }
        proof {
            reveal_strlit("{problems}");
        }
        SaveNotice {
            is_error: true,
            text: tr_with(
                t,
                "Settings saved. {problems}",
                "{problems}",
                join(&self.problems, " ").as_str(),
            ),
            clears_after: None,
        }
    }
}

/// The save that waits for the page to come to rest. Times are in
/// milliseconds.
#[derive(Debug, Clone, Copy, PartialEq, Eq, Structural)]
pub struct Autosave {
    pub due: Option<u64>,
}

/// When a save that is asked for at `now` happens.
pub open spec fn save_time(now: u64) -> u64 {
    (now + super::AUTOSAVE_DELAY) as u64
}

/// Whether a save that waits is due.
pub open spec fn is_save_due(due: Option<u64>, now: u64) -> bool {
    due is Some && due->0 <= now
}

impl Autosave {
    /// Something changed: the save waits anew, so typing or a quick series of
    /// toggles ends in one save and one capture restart.
    pub fn schedule(&mut self, now: u64)
        requires
            now + super::AUTOSAVE_DELAY <= u64::MAX,
        ensures
            final(self).due == Some(save_time(now)),
    {
        self.due = Some(now + super::AUTOSAVE_DELAY);
    }

    /// Whether the page is saved now.
    pub fn fires(&mut self, now: u64) -> (r: bool)
        ensures
            r == is_save_due(old(self).due, now),
            final(self).due == if r {
                None
            } else {
                old(self).due
            },
    {
        let fires = match self.due {
            Some(due) => due <= now,
            None => false,
        };
        if fires {
            self.due = None;
        }
        fires
    }
}

/// What a key press on a row that listens does.
#[derive(Debug, Clone, Copy, PartialEq, Eq, Structural)]
pub enum KeyCapture {
    /// The row goes on listening.
    Listen,
    /// The row stops listening.
    Stop,
    /// The row gets a hotkey and stops listening.
    Bind { index: usize, hotkey: Hotkey },
    /// The walkthrough gets a hotkey and stops listening.
    Answer { hotkey: Hotkey },
}

/// Decides about a key press on a row, or on the walkthrough, that listens:
/// Escape alone stops listening, a press that is no hotkey is ignored. `pressed` is the hotkey
/// that was pressed, if it is one.
pub fn key_captured(
    action: i32,
    escape: bool,
    alt: bool,
    control: bool,
    shift: bool,
    pressed: Option<Hotkey>,
) -> (r: KeyCapture)
    ensures
        r == if escape && !alt && !control && !shift {
            KeyCapture::Stop
        } else {
            match pressed {
                None => KeyCapture::Listen,
                Some(hotkey) => if action == HOTKEY_ACTION {
                    KeyCapture::Answer { hotkey }
                } else if action >= SAVE_ACTION_BASE {
                    KeyCapture::Bind { index: (action - SAVE_ACTION_BASE) as usize, hotkey }
                } else {
                    KeyCapture::Stop
                },
            }
        },
{
    if escape && !alt && !control && !shift {
        return KeyCapture::Stop;
    }
    match pressed {
        None => KeyCapture::Listen,
        Some(hotkey) => if action == HOTKEY_ACTION {
            KeyCapture::Answer { hotkey }
        } else if action >= SAVE_ACTION_BASE {
            KeyCapture::Bind { index: (action - SAVE_ACTION_BASE) as usize, hotkey }
        } else {
            KeyCapture::Stop
        },
    }
}

/// A quick series of changes ends in one save: after the last of them nothing
/// is saved until the page was quiet for a while, and once it was saved
/// nothing more is until the next change.
pub proof fn a_burst_ends_in_one_save(first: u64, last: u64, at: u64, later: u64)
    requires
        first <= last,
        last + super::AUTOSAVE_DELAY <= u64::MAX,
    ensures
        save_time(first) <= save_time(last),
        is_save_due(Some(save_time(last)), at) <==> last + super::AUTOSAVE_DELAY <= at,
        !is_save_due(None, later),
{
}

} // verus!
