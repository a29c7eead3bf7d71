//! What holds of a capture session whatever happens to it.
use vstd::prelude::*;

use super::capture::{has_sources, is_audible, is_available, live_sources, live_track, live_tracks,
    with_process, AudioSourceSettings, TrackView};
use super::model::{asked, candidates_of, differs_from, minute, recent, with_notice, ConfigChanges,
    DriveView, EngineView, PlanView, Session, Setup};
use crate::config::{AudioDeviceKind, AutoCapture, Config, DetectedGame, DisplaySelection,
    EncoderInfo, MonitorInfo};
use crate::error::CaptureError;
use crate::sink::{CaptureSink, FilePath, SinkRecording};

verus! {

impl DriveView {
    /// A plan waits for the attempt that was launched last, with a candidate
    /// that exists.
    pub open spec fn waits_for_the_last_launch(self) -> bool {
        self.starting matches Some(plan) ==> 0 <= plan.index < plan.candidates.len()
            && plan.generation == self.generation
    }
}

impl Session {
    /// What every operation keeps: the buffer takes frames exactly when
    /// someone wants it, a recording exists exactly when it is wanted, only a
    /// wanted recording can be the watcher's, a plan waits for the last
    /// launch, and at most three restarts are remembered.
    pub open spec fn consistent(self) -> bool {
        &&& self.s.buffer_enabled == self.e.wishes.any_buffer()
        &&& self.e.wishes.recording == !(self.s.recording is Idle)
        &&& self.e.wishes.auto_recording ==> self.e.wishes.recording
        &&& self.e.drive.waits_for_the_last_launch()
        &&& self.e.restarts.len() <= 3
    }
}

proof fn starting_waits(d: DriveView, setup: Setup)
    requires
        d.generation < u64::MAX,
    ensures
        d.started(setup).waits_for_the_last_launch(),
        d.started(setup).starting is Some,
        d.started(setup).generation == d.generation + 1,
        d.started(setup).running == d.running,
        d.started(setup).last_failure is None,
{
    reveal(DriveView::started);
}

proof fn restarting_waits(d: DriveView, setup: Setup, wanted: bool)
    requires
        d.generation < u64::MAX,
    ensures
        d.restarted(setup, wanted).waits_for_the_last_launch(),
        d.restarted(setup, wanted).starting is Some == wanted,
        d.restarted(setup, wanted).generation == if wanted {
            d.generation + 1
        } else {
            d.generation as int
        },
        !d.restarted(setup, wanted).running,
{
    reveal(DriveView::restarted);
    starting_waits(
        d.stopped().commanding(super::model::Command::ClearBuffer),
        setup,
    );
}

proof fn ensuring_keeps(s: Session)
    requires
        s.e.drive.generation < u64::MAX,
        s.e.drive.waits_for_the_last_launch(),
    ensures
        s.ensured().e.drive.waits_for_the_last_launch(),
        s.ensured().e.drive.generation <= s.e.drive.generation + 1,
        s.ensured().e == s.e.driving(s.ensured().e.drive),
        s.ensured().s == (CaptureSink { failure: s.ensured().s.failure, ..s.s }),
{
    reveal(Session::ensured);
    reveal(Session::started);
    starting_waits(s.e.drive.stopped(), s.e.setup);
}

proof fn session_restart_keeps(s: Session)
    requires
        s.e.drive.generation < u64::MAX,
    ensures
        s.restarted().e.drive.waits_for_the_last_launch(),
        s.restarted().e.drive.generation <= s.e.drive.generation + 1,
        s.restarted().e == s.e.driving(s.restarted().e.drive),
        s.restarted().s == (CaptureSink { failure: s.restarted().s.failure, ..s.s }),
{
    reveal(Session::restarted);
    restarting_waits(s.e.drive, s.e.setup, s.e.wishes.any());
}

/// Turning the buffer on and off keeps a session consistent, and after a
/// toggle the buffer is wanted exactly when it was not on before.
pub proof fn buffer_operations_keep_a_session_consistent(s: Session)
    requires
        s.consistent(),
        s.e.drive.generation < u64::MAX,
    ensures
        s.buffer_started().consistent(),
        s.buffer_started().e.wishes.any_buffer(),
        s.buffer_stopped().consistent(),
        !s.buffer_stopped().e.wishes.any_buffer(),
        ({
            let toggled = if s.toggles_off() {
                s.buffer_stopped()
            } else {
                s.buffer_started()
            };
            toggled.consistent() && toggled.e.wishes.any_buffer() == !s.toggles_off()
        }),
{
    reveal(Session::buffer_started);
    reveal(Session::buffer_stopped);
    ensuring_keeps(
        Session {
            e: EngineView {
                wishes: super::model::Wishes { buffer: true, ..s.e.wishes },
                ..s.e
            },
            s: CaptureSink { buffer_enabled: true, ..s.s },
        },
    );
}

/// Starting and stopping a recording keeps a session consistent.
pub proof fn recording_operations_keep_a_session_consistent(s: Session, path: FilePath)
    requires
        s.consistent(),
        s.e.drive.generation < u64::MAX,
    ensures
        s.recording_started(path).consistent(),
        s.recording_started(path).e.wishes.recording,
        s.recording_stopped().consistent(),
        !s.recording_stopped().e.wishes.recording,
{
    reveal(Session::recording_started);
    reveal(Session::recording_stopped);
    reveal(Session::recording_ended);
    ensuring_keeps(s);
    let down = s.recording_ended();
    session_restart_keeps(
        Session { e: EngineView { restart_pending: false, ..down.e }, ..down },
    );
}

proof fn following_keeps(s: Session, active: Option<DetectedGame>)
    requires
        s.consistent(),
        s.e.drive.generation < u64::MAX,
    ensures
        s.game_followed(active).consistent(),
        s.game_followed(active).e.drive.generation <= s.e.drive.generation + 1,
{
    reveal(Session::game_followed);
    reveal(Session::game_changed);
    let setup = Setup { active_game: active, ..s.e.setup };
    session_restart_keeps(
        Session {
            e: EngineView {
                setup,
                drive: DriveView {
                    game_capture_unavailable: false,
                    commands: s.e.drive.commands.push(setup.limits()),
                    ..s.e.drive
                },
                ..s.e
            },
            ..s
        },
    );
}

proof fn auto_buffering_keeps(s: Session, want: bool)
    requires
        s.consistent(),
        s.e.drive.generation < u64::MAX,
    ensures
        s.auto_buffered(want).consistent(),
        s.auto_buffered(want).e.drive.generation <= s.e.drive.generation + 1,
{
    reveal(Session::auto_buffered);
    ensuring_keeps(
        Session {
            e: EngineView {
                wishes: super::model::Wishes { auto_buffer: want, ..s.e.wishes },
                ..s.e
            },
            s: CaptureSink { buffer_enabled: s.e.wishes.buffer || want, ..s.s },
        },
    );
}

proof fn auto_recording_keeps(s: Session, want: bool, path: FilePath)
    requires
        s.consistent(),
        s.e.drive.generation < u64::MAX,
    ensures
        s.auto_recorded(want, path).consistent(),
{
    reveal(Session::auto_recorded);
    recording_operations_keep_a_session_consistent(s, path);
    reveal(Session::recording_started);
    ensuring_keeps(
        s.wishing(super::model::Wishes { auto_recording: true, ..s.e.wishes }),
    );
}

/// Following the games keeps a session consistent.
pub proof fn following_games_keeps_a_session_consistent(
    s: Session,
    active: Option<DetectedGame>,
    auto: AutoCapture,
    path: FilePath,
)
    requires
        s.consistent(),
        s.e.drive.generation <= u64::MAX - 3,
    ensures
        s.game_set(active, auto, path).consistent(),
{
    following_keeps(s, active);
    let followed = s.game_followed(active);
    auto_buffering_keeps(followed, auto == AutoCapture::Buffer);
    auto_recording_keeps(
        followed.auto_buffered(auto == AutoCapture::Buffer),
        auto == AutoCapture::Recording,
        path,
    );
}

/// New settings, new displays and new application processes keep a session
/// consistent.
pub proof fn changes_keep_a_session_consistent(
    s: Session,
    next: Config,
    changes: ConfigChanges,
    chosen: Option<EncoderInfo>,
    monitors: Vec<MonitorInfo>,
)
    requires
        s.consistent(),
        s.e.drive.generation < u64::MAX,
    ensures
        s.configured(next, changes, chosen).consistent(),
        s.monitors_refreshed(monitors).consistent(),
        s.app_audio_polled().consistent(),
{
    reveal(Session::monitors_refreshed);
    let with = s.reconfigured(next, changes, chosen);
    session_restart_keeps(
        with.driving(
            DriveView {
                unavailable_audio: Set::empty(),
                game_capture_unavailable: false,
                ..with.e.drive
            },
        ),
    );
    session_restart_keeps(s);
    session_restart_keeps(
        Session { e: EngineView { setup: Setup { monitors, ..s.e.setup }, ..s.e }, ..s },
    );
}

proof fn recent_is_a_suffix(restarts: Seq<u64>, now: u64)
    ensures
        recent(restarts, now).len() <= restarts.len(),
        recent(restarts, now) == restarts.skip(restarts.len() - recent(restarts, now).len()),
    decreases restarts.len(),
{
    if restarts.len() > 0 && now - restarts[0] > minute() {
        recent_is_a_suffix(restarts.drop_first(), now);
        let kept = recent(restarts, now);
        assert(restarts.drop_first().skip(restarts.drop_first().len() - kept.len())
            =~= restarts.skip(restarts.len() - kept.len()));
    } else {
        assert(restarts.skip(0) =~= restarts);
    }
}

/// Dealing with a failure keeps a session consistent, and leaves none behind.
pub proof fn retiring_a_failure_keeps_a_session_consistent(s: Session, now: u64)
    requires
        s.consistent(),
        s.e.drive.generation < u64::MAX,
    ensures
        s.failure_retired(now).consistent(),
        s.failure_retired(now).s.failure is None,
        s.failure_retired(now).s.recording == s.s.recording,
{
    reveal(Session::failure_retired);
    reveal(DriveView::going_on_without);
    reveal(DriveView::unhooked);
    reveal(DriveView::recovered);
    recent_is_a_suffix(s.e.restarts, now);
    let down = s.e.drive.stopped();
    let wanted = s.e.wishes.any();
    restarting_waits(down, s.e.setup, wanted);
    restarting_waits(down, s.e.setup, true);
    restarting_waits(
        DriveView { game_capture_unavailable: true, ..down },
        s.e.setup,
        true,
    );
    match s.s.failure {
        Some(CaptureError::AudioSource { key, .. }) => restarting_waits(
            DriveView { unavailable_audio: down.unavailable_audio.insert(key@), ..down },
            s.e.setup,
            wanted,
        ),
        _ => {},
    }
}

proof fn attempting_waits(e: EngineView, result: Result<(), CaptureError>)
    requires
        e.drive.generation < u64::MAX,
        e.drive.waits_for_the_last_launch(),
    ensures
        e.attempted(result).drive.waits_for_the_last_launch(),
        e.attempted(result).drive.generation <= e.drive.generation + 1,
        e.attempted(result).wishes == e.wishes,
        e.attempted(result).restarts == e.restarts,
{
    reveal(EngineView::attempted);
    reveal(EngineView::came_up);
    reveal(DriveView::attempt_failed);
}

/// The outcome of starts keeps a session consistent.
pub proof fn polling_keeps_a_session_consistent(
    s: Session,
    reports: Seq<(u64, Result<(), CaptureError>)>,
)
    requires
        s.consistent(),
        s.e.drive.generation + reports.len() <= u64::MAX,
    ensures
        (Session { e: s.e.polled(reports), ..s }).consistent(),
        s.e.polled(reports).drive.generation <= s.e.drive.generation + reports.len(),
    decreases reports.len(),
{
    if reports.len() > 0 {
        polling_keeps_a_session_consistent(s, reports.drop_last());
        attempting_waits(s.e.polled(reports.drop_last()), reports.last().1);
    }
}

/// A result that the plan does not wait for is dropped. In particular, after
/// a restart every attempt launched before it has lost its say.
pub proof fn stale_results_are_dropped(
    e: EngineView,
    wanted: bool,
    generation: u64,
    result: Result<(), CaptureError>,
)
    requires
        e.drive.generation < u64::MAX,
        generation <= e.drive.generation,
    ensures
        ({
            let restarted = e.driving(e.drive.restarted(e.setup, wanted));
            restarted.reported((generation, result)) == restarted
        }),
{
    restarting_waits(e.drive, e.setup, wanted);
}

/// A restart leaves the recording and what is wanted alone, so a display
/// change in the middle of a recording costs a cut, not the recording.
pub proof fn a_restart_keeps_the_recording(s: Session)
    requires
        s.e.drive.generation < u64::MAX,
    ensures
        s.restarted().s.recording == s.s.recording,
        s.restarted().s.buffer_enabled == s.s.buffer_enabled,
        s.restarted().e.wishes == s.e.wishes,
        s.e.wishes.any() ==> s.restarted().e.drive.starting is Some,
{
    session_restart_keeps(s);
    reveal(Session::restarted);
    restarting_waits(s.e.drive, s.e.setup, s.e.wishes.any());
}

/// Settings that need a restart wait for the end of a recording: the capture
/// is left alone while it lasts, and restarted when it stops if frames are
/// still wanted.
pub proof fn a_recording_defers_the_restart(
    s: Session,
    next: Config,
    changes: ConfigChanges,
    chosen: Option<EncoderInfo>,
)
    requires
        s.e.wishes.recording,
        s.e.engaged(),
        changes.capture_restart,
        s.e.drive.generation < u64::MAX,
    ensures
        ({
            let after = s.configured(next, changes, chosen);
            &&& after.e.restart_pending
            &&& after.e.drive.running == s.e.drive.running
            &&& after.e.drive.starting == s.e.drive.starting
            &&& after.e.drive.generation == s.e.drive.generation
            &&& after.s == s.s
            &&& s.e.wishes.any_buffer() ==> {
                let stopped = after.recording_stopped();
                &&& stopped.e.drive.generation == s.e.drive.generation + 1
                &&& stopped.e.drive.starting is Some
                &&& !stopped.e.restart_pending
            }
        }),
{
    let after = s.configured(next, changes, chosen);
    reveal(Session::recording_stopped);
    reveal(Session::recording_ended);
    let down = after.recording_ended();
    let ready = Session { e: EngineView { restart_pending: false, ..down.e }, ..down };
    session_restart_keeps(ready);
    reveal(Session::restarted);
    restarting_waits(ready.e.drive, ready.e.setup, ready.e.wishes.any());
}

/// Every registered encoder is among the candidates of a start, the
/// preferred one first.
pub proof fn every_encoder_gets_its_try(
    preferred: EncoderInfo,
    encoders: Seq<EncoderInfo>,
    i: int,
)
    requires
        0 <= i < encoders.len(),
    ensures
        candidates_of(preferred, encoders)[0] == preferred,
        exists|k: int|
            0 <= k < candidates_of(preferred, encoders).len() && (#[trigger] candidates_of(
                preferred,
                encoders,
            )[k])@ == encoders[i]@,
{
    let all = candidates_of(preferred, encoders);
    if encoders[i]@ == preferred@ {
        assert(all[0]@ == encoders[i]@);
    } else {
        let others = encoders.filter(differs_from(preferred));
        encoders.lemma_filter_contains(differs_from(preferred), i);
        let k = choose|k: int| 0 <= k < others.len() && others[k] == encoders[i];
        assert(all[k + 1]@ == encoders[i]@);
    }
}

/// The sentences of failed encoder starts.
pub open spec fn failure_texts(candidates: Seq<EncoderInfo>, errors: Seq<CaptureError>) -> Seq<
    Seq<char>,
> {
    Seq::new(
        errors.len(),
        |i: int|
            candidates[i].kind.name() + " ("@ + errors[i]->EncoderStart_reason@ + ")"@,
    )
}

/// The reports of attempts that were launched one after the other.
pub open spec fn reports_of(generation: u64, errors: Seq<CaptureError>) -> Seq<
    (u64, Result<(), CaptureError>),
> {
    Seq::new(
        errors.len(),
        |i: int| ((generation + i) as u64, Err::<(), CaptureError>(errors[i])),
    )
}

/// A start goes through the encoders in order: after some of them refused,
/// the next one is tried, with what failed so far on record.
pub proof fn encoders_are_tried_in_order(e: EngineView, plan: PlanView, errors: Seq<CaptureError>)
    requires
        e.drive.starting == Some(plan),
        plan.index == 0,
        plan.failures.len() == 0,
        plan.generation == e.drive.generation,
        errors.len() < plan.candidates.len(),
        e.drive.generation + errors.len() <= u64::MAX,
        forall|i: int| 0 <= i < errors.len() ==> (#[trigger] errors[i]) is EncoderStart,
    ensures
        e.polled(reports_of(e.drive.generation, errors)).drive.starting == Some(
            PlanView {
                index: errors.len() as int,
                failures: failure_texts(plan.candidates, errors),
                generation: (e.drive.generation + errors.len()) as u64,
                ..plan
            },
        ),
        e.polled(reports_of(e.drive.generation, errors)).drive.generation == e.drive.generation
            + errors.len(),
        e.polled(reports_of(e.drive.generation, errors)).drive.notice == e.drive.notice,
        e.polled(reports_of(e.drive.generation, errors)).setup == e.setup,
    decreases errors.len(),
{
    let reports = reports_of(e.drive.generation, errors);
    if errors.len() == 0 {
        assert(plan.failures =~= failure_texts(plan.candidates, errors));
    } else {
        let before = errors.drop_last();
        encoders_are_tried_in_order(e, plan, before);
        assert(reports.drop_last() =~= reports_of(e.drive.generation, before));
        let n = before.len() as int;
        assert(failure_texts(plan.candidates, errors) =~= failure_texts(
            plan.candidates,
            before,
        ).push(plan.candidates[n].kind.name() + " ("@ + errors[n]->EncoderStart_reason@ + ")"@));
        reveal(EngineView::attempted);
        reveal(DriveView::attempt_failed);
    }
}

/// When every encoder refused, the start is over and the failure names each
/// of them, in the order in which they were tried.
pub proof fn a_start_fails_after_the_last_encoder(
    e: EngineView,
    plan: PlanView,
    errors: Seq<CaptureError>,
)
    requires
        e.drive.starting == Some(plan),
        plan.index == 0,
        plan.failures.len() == 0,
        plan.generation == e.drive.generation,
        errors.len() == plan.candidates.len() > 0,
        e.drive.generation + errors.len() <= u64::MAX,
        forall|i: int| 0 <= i < errors.len() ==> (#[trigger] errors[i]) is EncoderStart,
    ensures
        ({
            let after = e.polled(reports_of(e.drive.generation, errors)).drive;
            &&& after.starting is None
            &&& after.last_failure == Some(
                "no video encoder could start: "@ + crate::text::joined(
                    failure_texts(plan.candidates, errors),
                    "; "@,
                ),
            )
        }),
{
    let before = errors.drop_last();
    let reports = reports_of(e.drive.generation, errors);
    encoders_are_tried_in_order(e, plan, before);
    assert(reports.drop_last() =~= reports_of(e.drive.generation, before));
    let n = before.len() as int;
    assert(failure_texts(plan.candidates, errors) =~= failure_texts(plan.candidates, before).push(
        plan.candidates[n].kind.name() + " ("@ + errors[n]->EncoderStart_reason@ + ")"@,
    ));
    reveal(EngineView::attempted);
    reveal(DriveView::attempt_failed);
}

/// The reports of attempts that were refused up to one that succeeded.
pub open spec fn reports_up_to_success(generation: u64, errors: Seq<CaptureError>) -> Seq<
    (u64, Result<(), CaptureError>),
> {
    reports_of(generation, errors).push(
        ((generation + errors.len()) as u64, Ok::<(), CaptureError>(())),
    )
}

/// A start uses the first encoder that starts: after it was set in motion and
/// some encoders refused, the status names the next one in the order of the
/// candidates, and where that is not the preferred one a notice says so.
pub proof fn the_first_encoder_that_starts_is_used(
    s: Session,
    errors: Seq<CaptureError>,
    now: u64,
    report: super::BufferReport,
    r: super::EngineStatus,
)
    requires
        s.e.drive.generation + errors.len() + 1 <= u64::MAX,
        errors.len() < candidates_of(s.e.setup.preferred, s.e.setup.encoders@).len(),
        forall|i: int| 0 <= i < errors.len() ==> (#[trigger] errors[i]) is EncoderStart,
        s.started().settled(
            reports_up_to_success((s.e.drive.generation + 1) as u64, errors),
            now,
        ).has_status(report, r),
    ensures
        ({
            let preferred = s.e.setup.preferred;
            let used = candidates_of(preferred, s.e.setup.encoders@)[errors.len() as int];
            &&& r.encoder == used
            &&& super::model::text_view(r.notice) == if used@ != preferred@ {
                with_notice(
                    s.e.setup.start_notice(),
                    preferred.kind.name() + " could not start, using "@ + used.kind.name()
                        + " instead."@,
                )
            } else {
                s.e.setup.start_notice()
            }
        }),
{
    reveal(Session::started);
    reveal(DriveView::started);
    reveal(Session::failure_retired);
    let e = s.started().e;
    let plan = e.drive.starting->0;
    assert(plan.candidates == candidates_of(s.e.setup.preferred, s.e.setup.encoders@));
    let generation = (s.e.drive.generation + 1) as u64;
    encoders_are_tried_in_order(e, plan, errors);
    let reports = reports_up_to_success(generation, errors);
    assert(reports.drop_last() =~= reports_of(generation, errors));
    reveal(EngineView::attempted);
    reveal(EngineView::came_up);
}

/// A start that every encoder refuses ends in a failed buffer, and its text
/// names each of them in the order in which they were tried.
pub proof fn a_start_that_every_encoder_refuses_is_shown(
    s: Session,
    errors: Seq<CaptureError>,
    now: u64,
    report: super::BufferReport,
    r: super::EngineStatus,
)
    requires
        s.e.drive.generation + errors.len() + 1 <= u64::MAX,
        errors.len() == candidates_of(s.e.setup.preferred, s.e.setup.encoders@).len(),
        forall|i: int| 0 <= i < errors.len() ==> (#[trigger] errors[i]) is EncoderStart,
        s.started().settled(
            reports_of((s.e.drive.generation + 1) as u64, errors),
            now,
        ).has_status(report, r),
    ensures
        r.buffer matches super::BufferState::Failed(text) && text@
            == "no video encoder could start: "@ + crate::text::joined(
            failure_texts(candidates_of(s.e.setup.preferred, s.e.setup.encoders@), errors),
            "; "@,
        ),
{
    reveal(Session::started);
    reveal(DriveView::started);
    reveal(Session::failure_retired);
    let e = s.started().e;
    a_start_fails_after_the_last_encoder(e, e.drive.starting->0, errors);
}

proof fn recent_keeps_what_is_recent(restarts: Seq<u64>, now: u64, i: int)
    requires
        0 <= i < restarts.len(),
        now - restarts[i] <= minute(),
    ensures
        recent(restarts, now).len() >= restarts.len() - i,
    decreases restarts.len(),
{
    if restarts.len() > 0 && now - restarts[0] > minute() {
        recent_keeps_what_is_recent(restarts.drop_first(), now, i - 1);
    }
}

/// The automatic restarts in memory after they were asked for at these times,
/// none before.
pub open spec fn remembered(times: Seq<u64>) -> Seq<u64>
    decreases times.len(),
{
    if times.len() == 0 {
        Seq::empty()
    } else {
        asked(remembered(times.drop_last()), times.last())
    }
}

/// Those of these times at which an automatic restart was allowed.
pub open spec fn allowed(times: Seq<u64>) -> Seq<u64>
    decreases times.len(),
{
    if times.len() == 0 {
        Seq::empty()
    } else if recent(remembered(times.drop_last()), times.last()).len() < 3 {
        allowed(times.drop_last()).push(times.last())
    } else {
        allowed(times.drop_last())
    }
}

/// Whether the times go on.
pub open spec fn in_order(times: Seq<u64>) -> bool {
    forall|i: int, j: int| 0 <= i <= j < times.len() ==> times[i] <= times[j]
}

/// Times at most a minute before another.
pub open spec fn within_a_minute_of(now: u64) -> spec_fn(u64) -> bool {
    |t: u64| now - t <= minute()
}

proof fn forgetting_early_is_harmless(restarts: Seq<u64>, early: u64, value: u64, now: u64)
    requires
        early <= now,
    ensures
        recent(recent(restarts, early), now) == recent(restarts, now),
        recent(recent(restarts, early).push(value), now) == recent(restarts.push(value), now),
    decreases restarts.len(),
{
    if restarts.len() > 0 && early - restarts[0] > minute() {
        let rest = restarts.drop_first();
        forgetting_early_is_harmless(rest, early, value, now);
        assert(restarts.push(value).drop_first() =~= rest.push(value));
    }
}

proof fn what_counts_is_remembered(times: Seq<u64>, now: u64)
    requires
        in_order(times),
        times.len() > 0 ==> times.last() <= now,
    ensures
        recent(remembered(times), now) == recent(allowed(times), now),
    decreases times.len(),
{
    if times.len() > 0 {
        let before = times.drop_last();
        let at = times.last();
        let (kept, granted) = (remembered(before), allowed(before));
        assert(before.len() > 0 ==> before.last() <= at);
        what_counts_is_remembered(before, at);
        what_counts_is_remembered(before, now);
        forgetting_early_is_harmless(kept, at, at, now);
        forgetting_early_is_harmless(kept, now, at, now);
        forgetting_early_is_harmless(granted, now, at, now);
    }
}

proof fn recent_are_those_within_a_minute(times: Seq<u64>, now: u64)
    requires
        in_order(times),
    ensures
        recent(times, now) == times.filter(within_a_minute_of(now)),
    decreases times.len(),
{
    let pass = within_a_minute_of(now);
    if times.len() > 0 && now - times[0] > minute() {
        let rest = times.drop_first();
        let first = seq![times[0]];
        assert(times =~= first + rest);
        recent_are_those_within_a_minute(rest, now);
        Seq::filter_distributes_over_add(first, rest, pass);
        assert(first.drop_last() =~= Seq::empty());
        reveal_with_fuel(Seq::filter, 2);
        assert(first.filter(pass) =~= Seq::empty());
        assert(Seq::<u64>::empty() + rest.filter(pass) =~= rest.filter(pass));
    } else {
        assert forall|i: int| 0 <= i < times.len() implies pass(#[trigger] times[i]) by {
            assert(times[0] <= times[i]);
        }
        crate::lists::filter_keeps_all(times, pass);
    }
}

proof fn allowed_are_in_order(times: Seq<u64>)
    requires
        in_order(times),
    ensures
        in_order(allowed(times)),
        forall|i: int|
            0 <= i < allowed(times).len() ==> #[trigger] allowed(times)[i] <= times.last(),
    decreases times.len(),
{
    if times.len() > 0 {
        let before = times.drop_last();
        allowed_are_in_order(before);
        assert(before.len() > 0 ==> before.last() <= times.last());
        assert(before.len() == 0 ==> allowed(before).len() == 0);
    }
}

/// An automatic restart is allowed exactly when fewer than three were allowed
/// in the minute before it. Those that were refused do not count.
pub proof fn restarts_are_counted(times: Seq<u64>, now: u64)
    requires
        in_order(times),
        times.len() > 0 ==> times.last() <= now,
    ensures
        recent(remembered(times), now).len() == allowed(times).filter(
            within_a_minute_of(now),
        ).len(),
        (recent(remembered(times), now).len() < 3) == (allowed(times.push(now)) == allowed(
            times,
        ).push(now)),
{
    what_counts_is_remembered(times, now);
    allowed_are_in_order(times);
    recent_are_those_within_a_minute(allowed(times), now);
    assert(times.push(now).drop_last() =~= times);
}

/// However often automatic restarts are asked for, no minute holds more than
/// three of them.
pub proof fn at_most_three_restarts_a_minute(times: Seq<u64>, i: int)
    requires
        in_order(times),
        0 <= i,
        i + 3 < allowed(times).len(),
    ensures
        allowed(times)[i + 3] - allowed(times)[i] > minute(),
    decreases times.len(),
{
    let before = times.drop_last();
    let at = times.last();
    if i + 3 < allowed(before).len() {
        at_most_three_restarts_a_minute(before, i);
    } else {
        assert(before.len() > 0 ==> before.last() <= at);
        what_counts_is_remembered(before, at);
        if at - allowed(before)[i] <= minute() {
            recent_keeps_what_is_recent(allowed(before), at, i);
        }
    }
}

/// A failed audio source is not part of a capture until the settings change,
/// and neither is an application that does not run; no track is empty.
pub proof fn captures_hold_live_sources_only(
    tracks: Seq<TrackView>,
    unavailable: Set<Seq<char>>,
    pids: Seq<(Seq<char>, u32)>,
    t: int,
    i: int,
)
    requires
        0 <= t < live_tracks(tracks, unavailable, pids).len(),
        0 <= i < live_tracks(tracks, unavailable, pids)[t].sources.len(),
    ensures
        ({
            let source = live_tracks(tracks, unavailable, pids)[t].sources[i];
            &&& !unavailable.contains(crate::config::source_key(source.kind, source.id@))
            &&& source.kind == AudioDeviceKind::Application ==> source.process != 0
        }),
        live_tracks(tracks, unavailable, pids)[t].sources.len() > 0,
{
    broadcast use vstd::seq_lib::group_filter_ensures;

    let mapped = tracks.map_values(live_track(unavailable, pids));
    let kept = live_tracks(tracks, unavailable, pids);
    mapped.lemma_filter_pred(has_sources(), t);
    assert(mapped.contains(kept[t])) by {
        mapped.lemma_filter_contains_rev(has_sources(), kept[t]);
    }
    let k = choose|k: int| 0 <= k < mapped.len() && mapped[k] == kept[t];
    let available = tracks[k].sources.filter(is_available(unavailable));
    let placed = available.map_values(with_process(pids));
    let live = live_sources(tracks[k].sources, unavailable, pids);
    assert(kept[t].sources == live);
    placed.lemma_filter_pred(is_audible(), i);
    assert(placed.contains(live[i])) by {
        placed.lemma_filter_contains_rev(is_audible(), live[i]);
    }
    let j = choose|j: int| 0 <= j < placed.len() && placed[j] == live[i];
    tracks[k].sources.lemma_filter_pred(is_available(unavailable), j);
    assert(is_available(unavailable)(available[j]));
}

/// Capture runs whenever the buffer or a recording needs it: asking for
/// either leaves it running or on its way up.
pub proof fn what_is_wanted_is_captured(s: Session, path: FilePath)
    requires
        s.e.drive.generation < u64::MAX,
    ensures
        s.buffer_started().e.engaged(),
        !s.e.wishes.recording ==> s.recording_started(path).e.engaged(),
{
    reveal(Session::buffer_started);
    reveal(Session::recording_started);
    reveal(Session::ensured);
    reveal(Session::started);
    starting_waits(s.e.drive.stopped(), s.e.setup);
}

/// Capture stops when neither the buffer nor a recording needs it any more.
pub proof fn what_nobody_wants_is_not_captured(s: Session)
    requires
        s.e.drive.generation < u64::MAX,
    ensures
        !s.e.wishes.recording ==> !s.buffer_stopped().e.engaged(),
        s.e.wishes.recording && !s.e.wishes.any_buffer() ==> !s.recording_stopped().e.engaged(),
{
    reveal(Session::buffer_stopped);
    reveal(Session::recording_stopped);
    reveal(Session::recording_ended);
    reveal(Session::restarted);
    reveal(DriveView::restarted);
}

/// A recording is not cut because an application with its own track comes or
/// goes, nor because the displays change.
pub proof fn a_recording_is_left_alone(s: Session, current: Vec<MonitorInfo>)
    requires
        s.e.wishes.recording,
    ensures
        s.app_audio_polled() == s,
        s.monitors_refreshed(current).e.drive == s.e.drive,
        s.monitors_refreshed(current).s == s.s,
{
    reveal(Session::monitors_refreshed);
}

/// A capture of a display that goes away, be it that of the settings or that
/// of the active game, moves to the primary display, and says so.
pub proof fn a_lost_display_moves_to_the_primary(s: Session, current: Vec<MonitorInfo>, id: String)
    requires
        s.e.setup.display() == DisplaySelection::Monitor(id),
        crate::config::lists_monitor(s.e.setup.monitors@, id@),
        !crate::config::lists_monitor(current@, id@),
        s.e.engaged(),
        s.e.wishes.any() && !s.e.wishes.recording,
        s.e.drive.generation < u64::MAX,
    ensures
        ({
            let after = s.monitors_refreshed(current).e.drive;
            &&& after.starting is Some
            &&& after.starting->0.display is Primary
            &&& after.notice == Some(
                "Display "@ + id@ + " is not connected, capturing the primary display instead."@,
            )
        }),
{
    let before = s.e.setup.monitors@;
    let i = choose|i: int| 0 <= i < before.len() && (#[trigger] before[i]).id@ == id@;
    if crate::config::monitor_views(current@) == crate::config::monitor_views(before) {
        assert(crate::config::monitor_views(before).len() == before.len());
        assert(crate::config::monitor_views(current@).len() == current@.len());
        assert(crate::config::monitor_views(before)[i] == before[i]@);
        assert(crate::config::monitor_views(current@)[i] == current@[i]@);
        assert(current@[i].id@ == id@);
    }
    let setup = Setup { monitors: current, ..s.e.setup };
    assert(setup.display() == s.e.setup.display());
    assert(setup.display_missing());
    reveal(Session::monitors_refreshed);
    reveal(Session::restarted);
    reveal(DriveView::restarted);
    reveal(DriveView::started);
}

/// A device that fails in the middle of a capture is dropped, the user is
/// told, and capture goes on without it, and a recording with it.
pub proof fn capture_goes_on_without_a_failed_device(s: Session, key: String, message: String, now: u64)
    requires
        s.s.failure == Some(CaptureError::AudioSource { key, message }),
        s.e.wishes.any(),
        s.e.drive.generation < u64::MAX,
    ensures
        ({
            let after = s.failure_retired(now);
            &&& after.e.drive.unavailable_audio.contains(key@)
            &&& after.e.drive.starting is Some
            &&& after.e.drive.last_failure is None
            &&& after.e.drive.notice is Some
            &&& after.e.wishes == s.e.wishes
            &&& after.s.recording == s.s.recording
        }),
{
    reveal(Session::failure_retired);
    reveal(DriveView::going_on_without);
    reveal(DriveView::restarted);
    reveal(DriveView::started);
}

} // verus!
