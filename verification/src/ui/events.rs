//! Results that arrive from workers, and what they change.
use vstd::prelude::*;

use super::format_megabytes;
use crate::config::GeneralConfig;
use crate::i18n::{tr, tr_with, Translator};
use crate::library::format_duration;
use crate::paths::file_name_of;
use crate::text::{decimal, replace};
use crate::updater::{PendingUpdate, UpdateEvent};

verus! {

/// A clip or recording that was written. The duration is in nanoseconds.
#[derive(Debug)]
pub struct ClipFile {
    pub path: String,
    pub bytes: u64,
    pub duration: u64,
    pub game: Option<String>,
    pub audio_tracks: Vec<String>,
}

/// Texts that outlive the window so a reopened window shows them again.
#[derive(Debug)]
pub struct StatusTexts {
    pub save_status: String,
    pub last_clip: String,
    pub last_recording: String,
    pub recording_message: String,
}

/// What a list of texts says.
#[verifier::ext_equal]
pub struct TextsView {
    pub save_status: Seq<char>,
    pub last_clip: Seq<char>,
    pub last_recording: Seq<char>,
    pub recording_message: Seq<char>,
}

impl View for StatusTexts {
    type V = TextsView;

    open spec fn view(&self) -> TextsView {
        TextsView {
            save_status: self.save_status@,
            last_clip: self.last_clip@,
            last_recording: self.last_recording@,
            recording_message: self.recording_message@,
        }
    }
}

impl StatusTexts {
    /// Nothing was saved yet.
    pub fn new() -> (r: Self)
        ensures
            r@ == (TextsView {
                save_status: ""@,
                last_clip: ""@,
                last_recording: ""@,
                recording_message: ""@,
            }),
    {
        StatusTexts {
            save_status: "".to_owned(),
            last_clip: "".to_owned(),
            last_recording: "".to_owned(),
            recording_message: "".to_owned(),
        }
    }
}

/// A text of the catalog with a value put in for a placeholder.
pub open spec fn filled(text: Seq<char>, name: Seq<char>, value: Seq<char>) -> Seq<char> {
    crate::text::replaced(text, name, value)
}

/// The file name of a path as it is shown, empty when the path ends in none.
pub open spec fn shown_name(path: Seq<char>) -> Seq<char> {
    match crate::paths::last_name(path) {
        Some(name) => name,
        None => Seq::empty(),
    }
}

/// What is said of a clip that was saved. `seconds` is its length with one
/// decimal.
pub open spec fn saved_text(t: Translator, clip: ClipFile, seconds: Seq<char>) -> Seq<char> {
    filled(
        filled(
            filled(
                t.says("Saved {name} ({seconds} s, {mb} MB)"@),
                "{name}"@,
                shown_name(clip.path@),
            ),
            "{seconds}"@,
            seconds,
        ),
        "{mb}"@,
        super::megabytes(clip.bytes),
    )
}

/// What is said of a file that was written under this name.
pub open spec fn written_text(t: Translator, clip: ClipFile, name: Seq<char>) -> Seq<char> {
    filled(
        filled(
            filled(t.says("Saved {name} ({duration}, {mb} MB)"@), "{name}"@, name),
            "{duration}"@,
            crate::library::duration_text((clip.duration / 1_000_000_000) as nat),
        ),
        "{mb}"@,
        super::megabytes(clip.bytes),
    )
}

/// Puts a value in for a placeholder.
fn fill(text: &str, name: &str, value: &str) -> (r: String)
    requires
        name@.len() > 0,
    ensures
        r@ == filled(text@, name@, value@),
{
    replace(text, name, value)
}

fn describe_saved(t: &Translator, clip: &ClipFile, seconds: &str) -> (r: String)
    ensures
        r@ == saved_text(*t, *clip, seconds@),
{
    proof {
        reveal_strlit("{name}");
        reveal_strlit("{seconds}");
        reveal_strlit("{mb}");
    }
    let s = tr(t, "Saved {name} ({seconds} s, {mb} MB)");
    let s = fill(s.as_str(), "{name}", file_name_of(clip.path.as_str()).as_str());
    let s = fill(s.as_str(), "{seconds}", seconds);
    fill(s.as_str(), "{mb}", format_megabytes(clip.bytes).as_str())
}

fn describe_written(t: &Translator, clip: &ClipFile, name: &str) -> (r: String)
    ensures
        r@ == written_text(*t, *clip, name@),
{
    proof {
        reveal_strlit("{name}");
        reveal_strlit("{duration}");
        reveal_strlit("{mb}");
    }
    let s = tr(t, "Saved {name} ({duration}, {mb} MB)");
    let s = fill(s.as_str(), "{name}", name);
    let s = fill(
        s.as_str(),
        "{duration}",
        format_duration(clip.duration / 1_000_000_000).as_str(),
    );
    fill(s.as_str(), "{mb}", format_megabytes(clip.bytes).as_str())
}

/// A text that says why something failed.
pub open spec fn failure(t: Translator, text: Seq<char>, reason: Seq<char>) -> Seq<char> {
    filled(t.says(text), "{error}"@, reason)
}

fn describe_failure(t: &Translator, text: &str, reason: &str) -> (r: String)
    ensures
        r@ == failure(*t, text@, reason@),
{
    proof {
        reveal_strlit("{error}");
    }
    tr_with(t, text, "{error}", reason)
}

/// A notice over the screen.
#[derive(Debug)]
pub struct Toast {
    pub title: String,
    pub message: String,
}

/// How a saved clip is announced.
#[derive(Debug)]
pub struct Announcement {
    pub sound: bool,
    pub toast: Option<Toast>,
}

/// Whether this is how a saved clip of so many whole seconds is announced.
pub open spec fn announces(
    t: Translator,
    general: GeneralConfig,
    seconds: u64,
    a: Announcement,
) -> bool {
    &&& a.sound == general.clip_sound
    &&& match a.toast {
        Some(toast) => {
            &&& general.clip_toast
            &&& toast.title@ == t.says("Clip saved"@)
            &&& toast.message@ == filled(
                t.says("Clipped the last {seconds} seconds"@),
                "{seconds}"@,
                crate::text::dec(seconds as nat),
            )
        },
        None => !general.clip_toast,
    }
}

fn announce(t: &Translator, general: &GeneralConfig, seconds: u64) -> (r: Announcement)
    ensures
        announces(*t, *general, seconds, r),
{
    proof {
        reveal_strlit("{seconds}");
    }
    let toast = if general.clip_toast {
        Some(
            Toast {
                title: tr(t, "Clip saved"),
                message: tr_with(
                    t,
                    "Clipped the last {seconds} seconds",
                    "{seconds}",
                    decimal(seconds).as_str(),
                ),
            },
        )
    } else {
        None
    };
    Announcement { sound: general.clip_sound, toast }
}

/// A clip that was saved, with its length in seconds: rounded, and with one
/// decimal.
#[derive(Debug)]
pub struct SavedClip {
    pub clip: ClipFile,
    pub seconds: u64,
    pub seconds_text: String,
}

/// Takes over how saving a clip went. Returns how it is announced.
pub fn clip_saved(
    texts: &mut StatusTexts,
    t: &Translator,
    general: &GeneralConfig,
    result: &Result<SavedClip, String>,
) -> (r: Announcement)
    ensures
        match *result {
            Ok(saved) => {
                &&& announces(*t, *general, saved.seconds, r)
                &&& final(texts)@ == (TextsView {
                    last_clip: saved.clip.path@,
                    save_status: saved_text(*t, saved.clip, saved.seconds_text@),
                    ..old(texts)@
                })
            },
            Err(reason) => {
                &&& !r.sound && r.toast is None
                &&& final(texts)@ == (TextsView {
                    save_status: failure(*t, "Could not save clip: {error}"@, reason@),
                    ..old(texts)@
                })
            },
        },
{
    match result {
        Ok(saved) => {
            texts.last_clip = saved.clip.path.clone();
            texts.save_status = describe_saved(t, &saved.clip, saved.seconds_text.as_str());
            announce(t, general, saved.seconds)
        },
        Err(reason) => {
            texts.save_status = describe_failure(
                t,
                "Could not save clip: {error}",
                reason.as_str(),
            );
            Announcement { sound: false, toast: None }
        },
    }
}

/// Takes over how finishing a recording went.
pub fn recording_done(
    texts: &mut StatusTexts,
    t: &Translator,
    result: &Result<ClipFile, String>,
)
    ensures
        final(texts)@ == match *result {
            Ok(clip) => TextsView {
                last_recording: clip.path@,
                recording_message: written_text(*t, clip, shown_name(clip.path@)),
                ..old(texts)@
            },
            Err(reason) => TextsView {
                recording_message: failure(*t, "Recording failed: {error}"@, reason@),
                ..old(texts)@
            },
        },
{
    match result {
        Ok(clip) => {
            texts.last_recording = clip.path.clone();
            let name = file_name_of(clip.path.as_str());
            texts.recording_message = describe_written(t, clip, name.as_str());
        },
        Err(reason) => {
            texts.recording_message = describe_failure(
                t,
                "Recording failed: {error}",
                reason.as_str(),
            );
        },
    }
}

/// Takes over how an edit went. Returns what is said of it, and the file
/// whose tracks are recorded.
pub fn edit_done(
    t: &Translator,
    result: &Result<ClipFile, String>,
    overwrite: bool,
    original: &str,
) -> (r: (String, Option<String>))
    ensures
        match *result {
            Ok(clip) => {
                &&& r.0@ == written_text(
                    *t,
                    clip,
                    if overwrite {
                        t.says("the original file"@)
                    } else {
                        shown_name(clip.path@)
                    },
                )
                &&& r.1 is Some && r.1->0@ == if overwrite {
                    original@
                } else {
                    clip.path@
                }
            },
            Err(reason) => {
                &&& r.0@ == failure(*t, "Edit failed: {error}"@, reason@)
                &&& r.1 is None
            },
        },
{
    match result {
        Ok(clip) => {
            let name = if overwrite {
                tr(t, "the original file")
            } else {
                file_name_of(clip.path.as_str())
            };
            let message = describe_written(t, clip, name.as_str());
            let path = if overwrite {
                original.to_owned()
            } else {
                clip.path.clone()
            };
            (message, Some(path))
        },
        Err(reason) => (describe_failure(t, "Edit failed: {error}", reason.as_str()), None),
    }
}

/// A result that arrives from a worker. Results are handled whether or not a
/// window exists at that moment.
#[derive(Debug)]
pub enum UiEvent {
    ClipSaved(Result<SavedClip, String>),
    RecordingDone(Result<ClipFile, String>),
    EditDone { result: Result<ClipFile, String>, overwrite: bool, original: String },
    Update(UpdateEvent),
    Steam(Result<Vec<(String, String)>, String>),
}

/// What the results change. It survives closing the window.
#[derive(Debug)]
pub struct Session {
    pub texts: StatusTexts,
    pub pending_update: Option<PendingUpdate>,
    pub update_banner: Option<UpdateEvent>,
}

/// A file and the names of its tracks.
#[derive(Debug)]
pub struct Tagged {
    pub path: String,
    pub tracks: Vec<String>,
}

/// What an event asks for.
#[derive(Debug)]
pub struct Effects {
    /// How a saved clip is announced.
    pub announcement: Announcement,
    /// The engine is told that its recording is over.
    pub recording_finished: bool,
    /// A file that is put into the library.
    pub index: Option<ClipFile>,
    /// A file whose tracks are recorded after the library was refreshed.
    pub tag: Option<Tagged>,
    /// What the editor says; it is no longer busy then.
    pub edit_message: Option<String>,
    /// The window shows the texts again.
    pub show_texts: bool,
    /// The window shows the update banner again.
    pub show_banner: bool,
    /// Names that were found for games.
    pub names: Option<Result<Vec<(String, String)>, String>>,
}

impl Effects {
    /// Whether nothing is asked for.
    pub open spec fn is_none(self) -> bool {
        &&& !self.announcement.sound && self.announcement.toast is None
        &&& !self.recording_finished
        &&& self.index is None
        &&& self.tag is None
        &&& self.edit_message is None
        &&& !self.show_texts
        &&& !self.show_banner
        &&& self.names is None
    }

    fn none() -> (r: Self)
        ensures
            r.is_none(),
    {
        Effects {
            announcement: Announcement { sound: false, toast: None },
            recording_finished: false,
            index: None,
            tag: None,
            edit_message: None,
            show_texts: false,
            show_banner: false,
            names: None,
        }
    }
}

/// What an event does to the session `a`, and what it asks for.
pub open spec fn is_handled(
    a: Session,
    t: Translator,
    general: GeneralConfig,
    event: UiEvent,
    b: Session,
    r: Effects,
) -> bool {
    match event {
        UiEvent::ClipSaved(result) => {
            &&& b.pending_update == a.pending_update && b.update_banner == a.update_banner
            &&& r.show_texts
            &&& (Effects { announcement: Announcement { sound: false, toast: None }, index: None, show_texts: false, ..r }).is_none()
            &&& match result {
                Ok(saved) => {
                    &&& announces(t, general, saved.seconds, r.announcement)
                    &&& r.index == Some(saved.clip)
                    &&& b.texts@ == (TextsView {
                        last_clip: saved.clip.path@,
                        save_status: saved_text(t, saved.clip, saved.seconds_text@),
                        ..a.texts@
                    })
                },
                Err(reason) => {
                    &&& !r.announcement.sound && r.announcement.toast is None
                    &&& r.index is None
                    &&& b.texts@ == (TextsView {
                        save_status: failure(t, "Could not save clip: {error}"@, reason@),
                        ..a.texts@
                    })
                },
            }
        },
        UiEvent::RecordingDone(result) => {
            &&& b.pending_update == a.pending_update && b.update_banner == a.update_banner
            &&& r.recording_finished && r.show_texts
            &&& (Effects { recording_finished: false, index: None, show_texts: false, ..r }).is_none()
            &&& match result {
                Ok(clip) => {
                    &&& r.index == Some(clip)
                    &&& b.texts@ == (TextsView {
                        last_recording: clip.path@,
                        recording_message: written_text(t, clip, shown_name(clip.path@)),
                        ..a.texts@
                    })
                },
                Err(reason) => {
                    &&& r.index is None
                    &&& b.texts@ == (TextsView {
                        recording_message: failure(t, "Recording failed: {error}"@, reason@),
                        ..a.texts@
                    })
                },
            }
        },
        UiEvent::EditDone { result, overwrite, original } => {
            &&& b == a
            &&& r.edit_message is Some
            &&& (Effects { edit_message: None, tag: None, ..r }).is_none()
            &&& match result {
                Ok(clip) => {
                    &&& r.edit_message->0@ == written_text(
                        t,
                        clip,
                        if overwrite {
                            t.says("the original file"@)
                        } else {
                            shown_name(clip.path@)
                        },
                    )
                    &&& r.tag is Some
                    &&& r.tag->0.path@ == if overwrite {
                        original@
                    } else {
                        clip.path@
                    }
                    &&& r.tag->0.tracks == clip.audio_tracks
                },
                Err(reason) => {
                    &&& r.edit_message->0@ == failure(t, "Edit failed: {error}"@, reason@)
                    &&& r.tag is None
                },
            }
        },
        UiEvent::Update(found) => {
            &&& b.texts == a.texts
            &&& b.update_banner == Some(found)
            &&& b.pending_update == match found {
                UpdateEvent::Ready(pending) => Some(pending),
                _ => a.pending_update,
            }
            &&& r.show_banner
            &&& (Effects { show_banner: false, ..r }).is_none()
        },
        UiEvent::Steam(result) => {
            &&& b == a
            &&& r.names == Some(result)
            &&& (Effects { names: None, ..r }).is_none()
        },
    }
}

/// Takes over a result that arrived from a worker.
pub fn handle_event(
    session: &mut Session,
    t: &Translator,
    general: &GeneralConfig,
    event: UiEvent,
) -> (r: Effects)
    ensures
        is_handled(*old(session), *t, *general, event, *final(session), r),
{
    let mut effects = Effects::none();
    match event {
        UiEvent::ClipSaved(result) => {
            effects.announcement = clip_saved(&mut session.texts, t, general, &result);
            effects.show_texts = true;
            if let Ok(saved) = result {
                effects.index = Some(saved.clip);
            }
        },
        UiEvent::RecordingDone(result) => {
            effects.recording_finished = true;
            recording_done(&mut session.texts, t, &result);
            effects.show_texts = true;
            if let Ok(clip) = result {
                effects.index = Some(clip);
            }
        },
        UiEvent::EditDone { result, overwrite, original } => {
            let (message, path) = edit_done(t, &result, overwrite, original.as_str());
            effects.edit_message = Some(message);
            if let Ok(clip) = result {
                if let Some(path) = path {
                    effects.tag = Some(Tagged { path, tracks: clip.audio_tracks });
                }
            }
        },
        UiEvent::Update(found) => {
            if let UpdateEvent::Ready(pending) = &found {
                session.pending_update = Some(pending.clone());
            }
            session.update_banner = Some(found);
            effects.show_banner = true;
        },
        UiEvent::Steam(result) => {
            effects.names = Some(result);
        },
    }
    effects
}

/// A save that failed leaves the clip that was saved last in place, and puts
/// nothing into the library.
pub proof fn a_failed_save_keeps_the_last_clip(
    a: Session,
    t: Translator,
    general: GeneralConfig,
    reason: String,
    b: Session,
    r: Effects,
)
    requires
        is_handled(a, t, general, UiEvent::ClipSaved(Err(reason)), b, r),
    ensures
        b.texts.last_clip@ == a.texts.last_clip@,
        r.index is None && !r.announcement.sound && r.announcement.toast is None,
{
    assert(b.texts@.last_clip == a.texts@.last_clip);
}

/// An update that is ready stays ready until another one is.
pub proof fn a_ready_update_is_kept(
    a: Session,
    t: Translator,
    general: GeneralConfig,
    event: UiEvent,
    b: Session,
    r: Effects,
)
    requires
        is_handled(a, t, general, event, b, r),
        !(event matches UiEvent::Update(UpdateEvent::Ready(_))),
    ensures
        b.pending_update == a.pending_update,
{
}

} // verus!
