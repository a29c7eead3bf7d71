//! "Launch on startup" through the per user Run key. Nothing is written
//! unless the user turns the option on, and turning it off removes the value
//! again.
use vstd::prelude::*;

use crate::config::Config;
use crate::config::Language;
use crate::i18n::{tr_with, Translator};
use crate::platform::Platform;
use crate::text::{decimal, join2, join3};

verus! {

/// What is done to the Run value.
#[derive(Debug)]
pub enum RunValue {
    /// It is set to this command.
    Write(String),
    /// It is removed.
    Delete,
}

/// What makes the system match the setting. Errors are texts for the settings
/// page; they never stop the application.
pub fn apply(platform: Platform, enabled: bool, exe: &str) -> (r: Result<RunValue, String>)
    ensures
        match r {
            Ok(value) => platform == Platform::Windows && match value {
                RunValue::Write(command) => enabled && command@ == "\""@ + exe@ + "\" --minimized"@,
                RunValue::Delete => !enabled,
            },
            Err(text) => platform != Platform::Windows && text@
                == "launch on startup is only implemented on Windows"@,
        },
{
    match platform {
        Platform::Windows => if enabled {
            Ok(RunValue::Write(join3("\"", exe, "\" --minimized")))
        } else {
            Ok(RunValue::Delete)
        },
        _ => Err("launch on startup is only implemented on Windows".to_owned()),
    }
}

/// Whether the application is launched with the system. `exists` says whether
/// the Run value exists.
pub fn is_enabled(platform: Platform, exists: bool) -> (r: bool)
    ensures
        r == (platform == Platform::Windows && exists),
{
    match platform {
        Platform::Windows => exists,
        _ => false,
    }
}

/// How removing the Run value went, from the status of the call. A value that
/// does not exist is as good as removed.
pub fn removed(status: u32) -> (r: Result<(), String>)
    ensures
        match r {
            Ok(_) => status == 0 || status == 2,
            Err(text) => status != 0 && status != 2 && text@ == "could not remove the Run value: "@
                + crate::text::dec(status as nat),
        },
{
    if status == 0 || status == 2 {
        Ok(())
    } else {
        Err(join2("could not remove the Run value: ", decimal(status as u64).as_str()))
    }
}

/// Takes over what a first start sets: the language of the installer, and
/// that the walkthrough is still to be shown.
pub fn first_start(config: &mut Config, language: Option<Language>)
    ensures
        *final(config) == (Config {
            general: crate::config::GeneralConfig {
                language: match language {
                    Some(language) => language,
                    None => old(config).general.language,
                },
                intro_done: false,
                ..old(config).general
            },
            ..*old(config)
        }),
{
    if let Some(language) = language {
        config.general.language = language;
    }
    config.general.intro_done = false;
}

/// Whether the startup entry is written again at the start: the user wants it
/// and it is not there.
pub fn refreshes_entry(config: &Config, enabled: bool) -> (r: bool)
    ensures
        r == (config.general.launch_on_startup && !enabled),
{
    config.general.launch_on_startup && !enabled
}

/// Whether the window is shown at the start. Only the launch with the system,
/// which passes a flag when the user asked for it, opens in the tray.
pub fn shows_window(show: bool, minimized: bool) -> (r: bool)
    ensures
        r == (show || !minimized),
{
    show || !minimized
}

/// What is said of settings that could not be read.
pub open spec fn settings_warning(t: Translator, reason: Seq<char>) -> Seq<char> {
    crate::text::replaced(t.says("Settings were not applied: {error}"@), "{error}"@, reason)
}

/// What is said of an engine that could not be made.
pub open spec fn engine_warning(t: Translator, reason: Seq<char>) -> Seq<char> {
    crate::text::replaced(t.says("Capture is unavailable: {error}"@), "{error}"@, reason)
}

/// What the window warns about after the start. `settings` is why the settings
/// could not be read, `engine` why there is no engine.
pub fn startup_warning(t: &Translator, settings: Option<String>, engine: Option<String>) -> (r:
    String)
    ensures
        r@ == match (settings, engine) {
            (Some(a), Some(b)) => settings_warning(*t, a@) + "\n"@ + engine_warning(*t, b@),
            (Some(a), None) => settings_warning(*t, a@),
            (None, Some(b)) => engine_warning(*t, b@),
            (None, None) => Seq::empty(),
        },
{
    proof {
        reveal_strlit("{error}");
    }
    match (settings, engine) {
        (Some(a), Some(b)) => {
            let first = tr_with(t, "Settings were not applied: {error}", "{error}", a.as_str());
            let second = tr_with(t, "Capture is unavailable: {error}", "{error}", b.as_str());
            join3(first.as_str(), "\n", second.as_str())
        },
        (Some(a), None) => tr_with(
            t,
            "Settings were not applied: {error}",
            "{error}",
            a.as_str(),
        ),
        (None, Some(b)) => tr_with(
            t,
            "Capture is unavailable: {error}",
            "{error}",
            b.as_str(),
        ),
        (None, None) => String::new(),
    }
}

} // verus!
