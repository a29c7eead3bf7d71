//! What the window does with what comes in: results of workers, the state of the
//! engine, running games, and the choices on its pages.
use vstd::prelude::*;

use super::clip::{kept, preset_at, AudioTrackRow, CompressPreset};
use super::events::{is_handled, Effects, Session, UiEvent};
use super::gallery::{first_ones, game_at, game_place, kind_at};
use super::games::{name_found, unlisted, with_exe};
use super::intro::{is_finished, IntroPage};
use super::status::{available, is_recording, page_shows, presence_game, StatusPage};
use crate::config::{CaptureScope, Config, DetectedGame, GeneralConfig, HotkeyActionKind};
use crate::engine::{BufferState, EngineStatus};
use crate::i18n::Translator;
use crate::library::ClipKind;
use crate::settings::games::GameProfileRow;

verus! {

/// A clip that was saved goes to the library, is remembered as the last one, and
/// is announced as the settings say: the sound and the notice each for itself.
pub proof fn a_saved_clip_is_announced(
    a: Session,
    t: Translator,
    general: GeneralConfig,
    saved: super::events::SavedClip,
    b: Session,
    r: Effects,
)
    requires
        is_handled(a, t, general, UiEvent::ClipSaved(Ok(saved)), b, r),
    ensures
        r.index == Some(saved.clip),
        b.texts.last_clip@ == saved.clip.path@,
        b.texts.last_recording@ == a.texts.last_recording@,
        b.texts.recording_message@ == a.texts.recording_message@,
        r.announcement.sound <==> general.clip_sound,
        r.announcement.toast is Some <==> general.clip_toast,
        r.show_texts,
        !r.recording_finished,
{
}

/// The end of a recording is told to the engine either way; its file goes to the
/// library when there is one.
pub proof fn a_finished_recording_is_taken_over(
    a: Session,
    t: Translator,
    general: GeneralConfig,
    result: Result<super::events::ClipFile, String>,
    b: Session,
    r: Effects,
)
    requires
        is_handled(a, t, general, UiEvent::RecordingDone(result), b, r),
    ensures
        r.recording_finished,
        r.show_texts,
        r.index == (match result {
            Ok(clip) => Some(clip),
            Err(_) => None,
        }),
        b.texts.last_recording@ == (match result {
            Ok(clip) => clip.path@,
            Err(_) => a.texts.last_recording@,
        }),
        b.texts.last_clip@ == a.texts.last_clip@,
        b.texts.save_status@ == a.texts.save_status@,
        !r.announcement.sound && r.announcement.toast is None,
{
}

/// The tracks of an edit are recorded for the file that has them now: the
/// original where it was replaced, the new one otherwise. A failed edit changes
/// nothing.
pub proof fn an_edit_is_told_and_tagged(
    a: Session,
    t: Translator,
    general: GeneralConfig,
    result: Result<super::events::ClipFile, String>,
    overwrite: bool,
    original: String,
    b: Session,
    r: Effects,
)
    requires
        is_handled(a, t, general, UiEvent::EditDone { result, overwrite, original }, b, r),
    ensures
        b == a,
        r.edit_message is Some,
        r.tag is Some <==> result is Ok,
        result is Ok && overwrite ==> r.tag->0.path@ == original@,
        result is Ok && !overwrite ==> r.tag->0.path@ == result->Ok_0.path@,
        result is Ok ==> r.tag->0.tracks == result->Ok_0.audio_tracks,
        r.index is None && !r.recording_finished,
{
}

/// The banner shows the latest about an update, and one that is ready can be
/// installed.
pub proof fn an_update_is_shown(
    a: Session,
    t: Translator,
    general: GeneralConfig,
    found: crate::updater::UpdateEvent,
    b: Session,
    r: Effects,
)
    requires
        is_handled(a, t, general, UiEvent::Update(found), b, r),
    ensures
        r.show_banner,
        b.update_banner == Some(found),
        found matches crate::updater::UpdateEvent::Ready(pending) ==> b.pending_update == Some(
            pending,
        ),
        b.texts == a.texts,
{
}

/// The window says that the buffer is on exactly while it fills, shows why it
/// failed when it did, and never offers more seconds than the buffer is long.
pub proof fn the_window_tells_the_status(page: StatusPage, t: Translator, status: EngineStatus)
    requires
        page_shows(page, t, status),
    ensures
        status.buffer is Running ==> page.buffer_label@ == t.says("Buffer on"@),
        !(status.buffer is Running) ==> page.buffer_label@ == t.says("Buffer off"@),
        page.error is Some <==> status.buffer is Failed,
        status.buffer matches BufferState::Failed(reason) ==> page.error->0@ == reason@,
        page.show_texts <==> status.recording is Failed,
        status.buffer is Stopped ==> page.buffer_status@ == t.says("Stopped"@),
        status.buffer is Starting ==> page.buffer_status@ == t.says("Starting..."@),
        status.buffer is Running ==> page.buffer_status@ == t.says("Recording into memory"@),
        status.buffer is Failed ==> page.buffer_status@ == t.says("Failed"@),
        status.recording is Idle ==> page.recording_status@ == t.says("Not recording"@),
        status.recording is Finishing ==> page.recording_status@ == t.says("Finishing file..."@),
        status.notice is None && !status.blank ==> page.notice@.len() == 0,
        status.notice is Some && !status.blank ==> page.notice@ == status.notice->0@,
        is_recording(status.recording) <==> status.recording is Starting || status.recording
            is Active,
{
}

/// The seconds that are offered are those that the buffer holds, rounded, and at
/// most its length.
pub proof fn the_buffer_offers_what_it_holds(status: EngineStatus)
    ensures
        available(status) <= status.replay_length,
        status.report.stats.duration >= status.replay_length * 1_000_000_000 ==> available(status)
            == status.replay_length,
        status.report.stats.duration < status.replay_length * 1_000_000_000 ==> {
            let held = status.report.stats.duration as int;
            let shown = available(status) * 1_000_000_000;
            held - 500_000_000 <= shown <= held + 500_000_000
        },
{
    let limit = status.replay_length * 1_000_000_000;
    let held = if status.report.stats.duration < limit {
        status.report.stats.duration as int
    } else {
        limit
    };
    crate::numbers::nearest_is_near(held as nat, 1_000_000_000);
}

/// The presence names a game that runs, and nothing where none does.
pub proof fn the_presence_names_a_game(game: Seq<char>)
    ensures
        presence_game(game) is Some <==> game.len() > 0 && game != "No game detected"@,
        presence_game(game) is Some ==> presence_game(game) == Some(game),
{
}

/// Every kind, and every game, is found at its place of its list; the first place
/// stands for all.
pub proof fn the_gallery_lists_are_in_order(games: Seq<String>, i: int, index: int)
    requires
        0 <= i < games.len(),
        forall|k: int| 0 <= k < i ==> (#[trigger] games[k])@ != games[i]@,
    ensures
        kind_at(index) == Some(ClipKind::Replay) <==> index == 1,
        kind_at(index) == Some(ClipKind::Recording) <==> index == 2,
        kind_at(index) == Some(ClipKind::Edited) <==> index == 3,
        game_at(games, 0) is None,
        game_at(games, i + 1) == Some(games[i]@),
        game_place(games, game_at(games, i + 1)) == i + 1,
        game_place(games, None) == 0,
{
    let p = super::gallery::is_game(games[i]@);
    crate::lists::first_where_is_first(games, p);
    assert(p(games[i]));
}

/// The front page shows the first clips of the gallery, at most as many as it has
/// room for.
pub proof fn the_front_page_shows_the_first_clips(order: Seq<int>, k: int)
    requires
        0 <= k < first_ones(order).len(),
    ensures
        first_ones(order)[k] == order[k],
        first_ones(order).len() <= super::gallery::RECENT_CLIPS,
        order.len() <= super::gallery::RECENT_CLIPS ==> first_ones(order).len() == order.len(),
        order.len() > super::gallery::RECENT_CLIPS ==> first_ones(order).len()
            == super::gallery::RECENT_CLIPS,
{
}

/// A running game is offered exactly when no row is for its executable.
pub proof fn a_running_game_without_a_row_is_offered(
    games: Seq<DetectedGame>,
    exes: Seq<Seq<char>>,
    i: int,
    k: int,
)
    requires
        0 <= i < games.len(),
        0 <= k < games.filter(unlisted(exes)).len(),
    ensures
        !exes.contains(games[i].exe@) ==> games.filter(unlisted(exes)).contains(games[i]),
        !exes.contains(games.filter(unlisted(exes))[k].exe@),
        games.contains(games.filter(unlisted(exes))[k]),
{
    let p = unlisted(exes);
    if p(games[i]) {
        games.lemma_filter_contains(p, i);
    }
    games.lemma_filter_pred(p, k);
    games.lemma_filter_contains_rev(p, games.filter(p)[k]);
}

/// An executable that was typed gets its ending once, and keeps one that it has.
pub proof fn a_typed_executable_has_its_ending_once(lower: Seq<char>)
    ensures
        crate::text::ends_in(with_exe(lower), ".exe"@),
        with_exe(with_exe(lower)) == with_exe(lower),
        lower.is_prefix_of(with_exe(lower)),
        with_exe(lower).len() <= lower.len() + 4,
{
    reveal_strlit(".exe");
    let full = lower + ".exe"@;
    assert(full.skip(full.len() - 4) =~= ".exe"@);
    assert(full.take(lower.len() as int) =~= lower);
    assert(full.subrange(full.len() - 4, full.len() as int) =~= ".exe"@);
    assert(lower.take(lower.len() as int) =~= lower);
}

/// A row gets the first name that was found for its executable, whatever the
/// case of its letters, and keeps its own where none was.
pub proof fn a_row_gets_the_name_that_was_found(
    row: GameProfileRow,
    found: Seq<(String, String)>,
    i: int,
)
    ensures
        0 <= i < found.len() && found[i].0@ == crate::text::lowercase(row.exe@) && (forall|k: int|
            0 <= k < i ==> (#[trigger] found[k]).0@ != crate::text::lowercase(row.exe@))
            ==> name_found(row, found) == found[i].1@,
        (forall|k: int|
            0 <= k < found.len() ==> (#[trigger] found[k]).0@ != crate::text::lowercase(row.exe@))
            ==> name_found(row, found) == row.name@,
{
    let p = super::games::pair_of(crate::text::lowercase(row.exe@));
    crate::lists::first_where_is_first(found, p);
    if 0 <= i < found.len() {
        assert(p(found[i]) == (found[i].0@ == crate::text::lowercase(row.exe@)));
    }
}

/// A cut keeps exactly the tracks that are switched on.
pub proof fn a_cut_keeps_the_tracks_that_are_on(tracks: Seq<AudioTrackRow>, i: int)
    requires
        0 <= i < tracks.len(),
    ensures
        kept(tracks).len() == tracks.len(),
        kept(tracks)[i] == tracks[i].enabled,
{
}

/// A compression uses the preset that was chosen, the first one for a choice that
/// does not exist.
pub proof fn the_chosen_preset_is_used(presets: Seq<CompressPreset>, index: int)
    requires
        presets.len() > 0,
    ensures
        0 <= index < presets.len() ==> preset_at(presets, index) == presets[index],
        index < 0 || index >= presets.len() ==> preset_at(presets, index) == presets[0],
{
}

/// The answers of the walkthrough are in the settings: the buffer has the length
/// of the clip where one was chosen, and the scope is the one that was chosen.
pub proof fn the_answers_are_in_the_settings(
    a: Config,
    page: IntroPage,
    default_clips_dir: Seq<char>,
    b: Config,
)
    requires
        is_finished(a, page, default_clips_dir, b),
    ensures
        0 <= page.minutes <= 60 && 0 <= page.seconds <= 59 && page.minutes + page.seconds > 0
            ==> b.replay.length_seconds == page.minutes * 60 + page.seconds,
        page.minutes <= 0 && page.seconds <= 0 ==> b.replay.length_seconds
            == a.replay.length_seconds,
        b.games.scope == CaptureScope::Global <==> page.scope_index == 1,
        b.games.profiles == a.games.profiles,
        b.general.intro_done,
        b.general.language == a.general.language,
        b.capture == a.capture && b.audio == a.audio && b.discord == a.discord,
        b.hotkeys.bindings.len() >= 1,
        a.hotkeys.bindings.len() <= b.hotkeys.bindings.len() <= a.hotkeys.bindings.len() + 1,
{
    let p = super::window::has_action(HotkeyActionKind::SaveReplay);
    crate::lists::first_where_is_first(a.hotkeys.bindings@, p);
}

} // verus!
