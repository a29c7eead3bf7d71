//! What becomes of a capture session: what each operation leaves wanted, under
//! way and commanded.
use vstd::prelude::*;

use super::model::{Command, DriveView, EngineView, PlanView, Session, Setup,
    StopView, Wishes};
use crate::config::{DisplaySelection,
    EncoderInfo};
use crate::error::CaptureError;
use crate::sink::{FilePath, SinkRecording};

verus! {

/// Capture runs or is on its way up.
pub open spec fn is_up(d: DriveView) -> bool {
    d.running || d.starting is Some
}

/// The buffer or a recording needs frames.
pub open spec fn needs_frames(w: Wishes) -> bool {
    w.buffer || w.auto_buffer || w.recording
}

/// The display that the active game asks for, that of the settings otherwise.
pub open spec fn asked_display(setup: Setup) -> DisplaySelection {
    match setup.active_game {
        Some(game) => match game.profile {
            Some(profile) => match profile.display {
                Some(display) => display,
                None => setup.config.capture.display,
            },
            None => setup.config.capture.display,
        },
        None => setup.config.capture.display,
    }
}

/// Whether a display is connected. The primary one always is.
pub open spec fn is_connected(setup: Setup, display: DisplaySelection) -> bool {
    match display {
        DisplaySelection::Primary => true,
        DisplaySelection::Monitor(id) => exists|i: int|
            0 <= i < setup.monitors.len() && (#[trigger] setup.monitors@[i]).id@ == id@,
    }
}

/// Whether a display is the one to capture: the one that is asked for while it
/// is connected, the primary one otherwise.
pub open spec fn is_the_display(setup: Setup, display: DisplaySelection) -> bool {
    if is_connected(setup, asked_display(setup)) {
        display == asked_display(setup)
    } else {
        display is Primary
    }
}

/// Whether a list of encoders goes through the registered ones: the preferred
/// one first, then each of the others and nothing else, best first.
pub open spec fn goes_through_the_encoders(list: Seq<EncoderInfo>, setup: Setup) -> bool {
    let all = setup.encoders@;
    &&& list.len() > 0
    &&& list[0] == setup.preferred
    &&& forall|k: int|
        1 <= k < list.len() ==> (#[trigger] list[k])@ != setup.preferred@ && all.contains(list[k])
    &&& forall|i: int|
        0 <= i < all.len() && (#[trigger] all[i])@ != setup.preferred@ ==> list.contains(all[i])
    &&& forall|i: int, j: int|
        0 <= i < j < all.len() && (#[trigger] all[i])@ != setup.preferred@ && (#[trigger] all[j])@
            != setup.preferred@ ==> exists|a: int, b: int|
            1 <= a < b < list.len() && #[trigger] list[a] == all[i] && #[trigger] list[b] == all[j]
}

/// Whether a start was set in motion between two points: the plan waits for the
/// preferred encoder on the right display, the buffer and its tracks were
/// cleared before, and no failure is shown any more.
pub open spec fn starts_anew(before: DriveView, after: DriveView, setup: Setup) -> bool {
    let n = after.commands.len() as int;
    &&& after.generation == before.generation + 1
    &&& after.last_failure is None
    &&& before.commands.is_prefix_of(after.commands)
    &&& n >= before.commands.len() + 3
    &&& after.starting matches Some(plan) && {
        &&& plan.generation == after.generation
        &&& plan.index == 0
        &&& plan.failures.len() == 0
        &&& is_the_display(setup, plan.display)
        &&& goes_through_the_encoders(plan.candidates, setup)
        &&& after.commands[n - 1] == (Command::Start {
            generation: plan.generation,
            encoder: setup.preferred,
            display: plan.display,
        })
        &&& after.commands[n - 2] == Command::ClearAudioTracks
        &&& after.commands[n - 3] == Command::ClearBuffer
    }
}

/// Whether the capture was stopped and started anew between two points.
pub open spec fn restarts_anew(before: DriveView, after: DriveView, setup: Setup) -> bool {
    let n = after.commands.len() as int;
    &&& starts_anew(before, after, setup)
    &&& !after.running
    &&& n >= before.commands.len() + 5
    &&& after.commands[n - 4] == Command::ClearBuffer
    &&& after.commands[n - 5] == Command::StopBackend
}

proof fn an_order_survives_a_filter<A>(s: Seq<A>, p: spec_fn(A) -> bool, i: int, j: int)
    requires
        0 <= i < j < s.len(),
        p(s[i]),
        p(s[j]),
    ensures
        exists|a: int, b: int|
            0 <= a < b < s.filter(p).len() && #[trigger] s.filter(p)[a] == s[i]
                && #[trigger] s.filter(p)[b] == s[j],
    decreases s.len(),
{
    reveal(Seq::filter);
    let front = s.drop_last();
    if j < s.len() - 1 {
        an_order_survives_a_filter(front, p, i, j);
        let (a, b) = choose|a: int, b: int|
            0 <= a < b < front.filter(p).len() && #[trigger] front.filter(p)[a] == front[i]
                && #[trigger] front.filter(p)[b] == front[j];
        assert(s.filter(p)[a] == s[i] && s.filter(p)[b] == s[j]);
    } else {
        front.lemma_filter_contains(p, i);
        let a = choose|a: int| 0 <= a < front.filter(p).len() && front.filter(p)[a] == front[i];
        let b = front.filter(p).len() as int;
        assert(s.filter(p) =~= front.filter(p).push(s[j]));
        assert(s.filter(p)[a] == s[i] && s.filter(p)[b] == s[j]);
    }
}

proof fn a_plan_goes_through_the_encoders(setup: Setup)
    ensures
        goes_through_the_encoders(setup.plan().candidates, setup),
        is_the_display(setup, setup.plan().display),
{
    let all = setup.encoders@;
    let p = super::model::differs_from(setup.preferred);
    let others = all.filter(p);
    let list = setup.plan().candidates;
    assert forall|k: int| 1 <= k < list.len() implies (#[trigger] list[k])@ != setup.preferred@
        && all.contains(list[k]) by {
        all.lemma_filter_pred(p, k - 1);
        all.lemma_filter_contains_rev(p, others[k - 1]);
    }
    assert forall|i: int| 0 <= i < all.len() && (#[trigger] all[i])@ != setup.preferred@ implies
        list.contains(all[i]) by {
        all.lemma_filter_contains(p, i);
        let k = choose|k: int| 0 <= k < others.len() && others[k] == all[i];
        assert(list[k + 1] == all[i]);
    }
    assert forall|i: int, j: int|
        0 <= i < j < all.len() && (#[trigger] all[i])@ != setup.preferred@ && (#[trigger] all[j])@
            != setup.preferred@ implies exists|a: int, b: int|
        1 <= a < b < list.len() && #[trigger] list[a] == all[i] && #[trigger] list[b] == all[j] by {
        an_order_survives_a_filter(all, p, i, j);
        let (a, b) = choose|a: int, b: int|
            0 <= a < b < others.len() && #[trigger] others[a] == all[i] && #[trigger] others[b]
                == all[j];
        assert(list[a + 1] == all[i] && list[b + 1] == all[j]);
    }
}

pub(crate) proof fn starting_starts_anew(d: DriveView, setup: Setup)
    requires
        d.generation < u64::MAX,
    ensures
        starts_anew(d, d.started(setup), setup),
        d.started(setup).running == d.running,
        d.started(setup).unavailable_audio == d.unavailable_audio,
        d.started(setup).game_capture_unavailable == d.game_capture_unavailable,
        d.started(setup).commands.len() == d.commands.len() + 3,
{
    reveal(DriveView::started);
    a_plan_goes_through_the_encoders(setup);
    assert(d.commands.is_prefix_of(d.started(setup).commands));
}

pub(crate) proof fn restarting_restarts_anew(d: DriveView, setup: Setup)
    requires
        d.generation < u64::MAX,
    ensures
        restarts_anew(d, d.restarted(setup, true), setup),
        d.restarted(setup, true).unavailable_audio == d.unavailable_audio,
        d.restarted(setup, true).game_capture_unavailable == d.game_capture_unavailable,
{
    reveal(DriveView::restarted);
    let down = d.stopped().commanding(Command::ClearBuffer);
    starting_starts_anew(down, setup);
    let after = d.restarted(setup, true);
    let n = after.commands.len() as int;
    assert(after.commands.take(down.commands.len() as int) =~= down.commands);
    assert(after.commands[n - 4] == down.commands[n - 4]);
    assert(after.commands[n - 5] == down.commands[n - 5]);
    assert(d.commands.is_prefix_of(after.commands)) by {
        assert(down.commands.take(d.commands.len() as int) =~= d.commands);
        assert(after.commands.take(d.commands.len() as int) =~= d.commands);
    }
}

/// A start begins with the preferred encoder, goes through every registered one
/// in order, and captures the display that is asked for while it is connected.
pub proof fn a_start_is_planned_for_the_setup(s: Session)
    requires
        s.e.drive.generation < u64::MAX,
    ensures
        starts_anew(s.e.drive, s.started().e.drive, s.e.setup),
        s.started().s.failure is None,
        s.started().e.wishes == s.e.wishes,
        s.started().e.setup == s.e.setup,
{
    reveal(Session::started);
    starting_starts_anew(s.e.drive, s.e.setup);
}

/// An audio source that is missing at a start is dropped, the user is told, and
/// the same encoder is tried again without it.
pub proof fn a_start_goes_on_without_a_missing_device(
    e: EngineView,
    plan: PlanView,
    key: String,
    message: String,
)
    requires
        e.drive.starting == Some(plan),
        0 <= plan.index < plan.candidates.len(),
        e.drive.generation < u64::MAX,
    ensures
        ({
            let failure = CaptureError::AudioSource { key, message };
            let after = e.polled(seq![(plan.generation, Err::<(), CaptureError>(failure))]);
            let generation = (e.drive.generation + 1) as u64;
            &&& after.drive.unavailable_audio == e.drive.unavailable_audio.insert(key@)
            &&& after.drive.starting == Some(PlanView { generation, ..plan })
            &&& after.drive.generation == generation
            &&& after.drive.commands == e.drive.commands.push(
                Command::Start {
                    generation,
                    encoder: plan.candidates[plan.index],
                    display: plan.display,
                },
            )
            &&& after.drive.notice is Some
            &&& after.drive.last_failure == e.drive.last_failure
            &&& after.drive.game_capture_unavailable == e.drive.game_capture_unavailable
            &&& after.drive.running == e.drive.running
            &&& after.wishes == e.wishes
            &&& after.setup == e.setup
            &&& after.active == e.active
            &&& after.restarts == e.restarts
        }),
{
    only_the_awaited_report_counts(
        e,
        (
            plan.generation,
            Err::<(), CaptureError>(CaptureError::AudioSource { key, message }),
        ),
    );
    reveal(EngineView::attempted);
    reveal(DriveView::attempt_failed);
}

proof fn only_the_awaited_report_counts(e: EngineView, report: (u64, Result<(), CaptureError>))
    ensures
        e.polled(seq![report]) == e.reported(report),
{
    assert(seq![report].drop_last() =~= Seq::empty());
    reveal_with_fuel(EngineView::polled, 2);
}

/// An encoder that refuses makes way for the next one, which is launched at
/// once; what it said is kept. After the last one the start is over and the
/// failure is shown.
pub proof fn a_refused_encoder_makes_way_for_the_next(
    e: EngineView,
    plan: PlanView,
    error: CaptureError,
)
    requires
        e.drive.starting == Some(plan),
        0 <= plan.index < plan.candidates.len(),
        e.drive.generation < u64::MAX,
        error is EncoderStart,
    ensures
        ({
            let after = e.polled(seq![(plan.generation, Err::<(), CaptureError>(error))]);
            let generation = (e.drive.generation + 1) as u64;
            &&& plan.index + 1 < plan.candidates.len() ==> {
                &&& after.drive.starting matches Some(next) && next.index == plan.index + 1
                    && next.candidates == plan.candidates && next.display == plan.display
                    && next.generation == generation && next.failures.len()
                    == plan.failures.len() + 1
                &&& after.drive.commands == e.drive.commands.push(
                    Command::Start {
                        generation,
                        encoder: plan.candidates[plan.index + 1],
                        display: plan.display,
                    },
                )
                &&& after.drive.last_failure == e.drive.last_failure
            }
            &&& plan.index + 1 == plan.candidates.len() ==> {
                &&& after.drive.starting is None
                &&& after.drive.last_failure is Some
                &&& after.drive.commands == e.drive.commands
            }
            &&& after.drive.unavailable_audio == e.drive.unavailable_audio
            &&& after.drive.game_capture_unavailable == e.drive.game_capture_unavailable
            &&& after.drive.running == e.drive.running
            &&& after.wishes == e.wishes
            &&& after.setup == e.setup
        }),
{
    only_the_awaited_report_counts(e, (plan.generation, Err::<(), CaptureError>(error)));
    reveal(EngineView::attempted);
    reveal(DriveView::attempt_failed);
}

/// A game that cannot be hooked at a start is captured from the display with
/// the same encoder, and the user is told. When that was already the case the
/// start is over and the failure is shown.
pub proof fn a_start_goes_on_without_a_hook(e: EngineView, plan: PlanView, message: String)
    requires
        e.drive.starting == Some(plan),
        0 <= plan.index < plan.candidates.len(),
        e.drive.generation < u64::MAX,
    ensures
        ({
            let failure = CaptureError::GameCapture(message);
            let after = e.polled(seq![(plan.generation, Err::<(), CaptureError>(failure))]);
            let generation = (e.drive.generation + 1) as u64;
            &&& after.drive.game_capture_unavailable
            &&& after.setup.game_pid(after.drive.game_capture_unavailable) is None
            &&& !e.drive.game_capture_unavailable ==> {
                &&& after.drive.starting == Some(PlanView { generation, ..plan })
                &&& after.drive.generation == generation
                &&& after.drive.commands == e.drive.commands.push(
                    Command::Start {
                        generation,
                        encoder: plan.candidates[plan.index],
                        display: plan.display,
                    },
                )
                &&& after.drive.notice is Some
                &&& after.drive.last_failure == e.drive.last_failure
            }
            &&& e.drive.game_capture_unavailable ==> {
                &&& after.drive.starting is None
                &&& after.drive.last_failure is Some
                &&& after.drive.commands == e.drive.commands
            }
            &&& after.drive.unavailable_audio == e.drive.unavailable_audio
            &&& after.wishes == e.wishes
        }),
{
    only_the_awaited_report_counts(
        e,
        (plan.generation, Err::<(), CaptureError>(CaptureError::GameCapture(message))),
    );
    reveal(EngineView::attempted);
    reveal(DriveView::attempt_failed);
}

/// A cancelled start ends quietly. Any other failure ends the start and is shown
/// with its text.
pub proof fn other_failures_end_the_start(e: EngineView, plan: PlanView, error: CaptureError)
    requires
        e.drive.starting == Some(plan),
        0 <= plan.index < plan.candidates.len(),
        !(error is AudioSource),
        !(error is EncoderStart),
        !(error is GameCapture),
    ensures
        ({
            let after = e.polled(seq![(plan.generation, Err::<(), CaptureError>(error))]);
            &&& after.drive.starting is None
            &&& after.drive.commands == e.drive.commands
            &&& after.drive.generation == e.drive.generation
            &&& after.drive.last_failure == if error is Cancelled {
                e.drive.last_failure
            } else {
                Some(error.text())
            }
            &&& after.drive.notice == e.drive.notice
            &&& after.wishes == e.wishes
        }),
{
    only_the_awaited_report_counts(e, (plan.generation, Err::<(), CaptureError>(error)));
    reveal(EngineView::attempted);
    reveal(DriveView::attempt_failed);
}

/// An encoder that starts ends the plan: it is the active one, and the processes
/// that have a track of their own are remembered.
pub proof fn a_started_encoder_ends_the_plan(e: EngineView, plan: PlanView)
    requires
        e.drive.starting == Some(plan),
        0 <= plan.index < plan.candidates.len(),
    ensures
        ({
            let after = e.polled(seq![(plan.generation, Ok::<(), CaptureError>(()))]);
            &&& after.drive.starting is None
            &&& after.active == plan.candidates[plan.index]
            &&& after.app_audio == e.setup.audio_pids()
            &&& after.drive.commands == e.drive.commands
            &&& after.drive.generation == e.drive.generation
            &&& after.drive.last_failure == e.drive.last_failure
            &&& after.drive.unavailable_audio == e.drive.unavailable_audio
            &&& after.drive.notice == e.drive.notice || after.drive.notice is Some
                && plan.candidates[plan.index]@ != e.setup.preferred@
            &&& plan.candidates[plan.index]@ != e.setup.preferred@ ==> after.drive.notice is Some
            &&& after.wishes == e.wishes
            &&& after.setup == e.setup
        }),
{
    only_the_awaited_report_counts(e, (plan.generation, Ok::<(), CaptureError>(())));
    reveal(EngineView::attempted);
    reveal(EngineView::came_up);
}

/// A report that no plan waits for changes nothing.
pub proof fn an_unexpected_report_changes_nothing(
    e: EngineView,
    report: (u64, Result<(), CaptureError>),
)
    requires
        e.drive.starting matches Some(plan) ==> plan.generation != report.0,
    ensures
        e.polled(seq![report]) == e,
{
    only_the_awaited_report_counts(e, report);
}

/// Asking for the buffer or for a recording starts the capture when nothing is
/// captured and nothing is on its way up; otherwise the capture is left alone.
pub proof fn asking_for_frames_starts_the_capture_once(s: Session, path: FilePath)
    requires
        s.e.drive.generation < u64::MAX,
    ensures
        ({
            let up = s.e.drive.running && s.s.failure is None || s.e.drive.starting is Some;
            let buffer = s.buffer_started();
            let recording = s.recording_started(path);
            &&& buffer.e.wishes == (Wishes { buffer: true, ..s.e.wishes })
            &&& buffer.s.buffer_enabled
            &&& buffer.s.recording == s.s.recording
            &&& buffer.e.setup == s.e.setup
            &&& if up {
                buffer.e.drive == s.e.drive && buffer.s.failure == s.s.failure
            } else {
                starts_anew(s.e.drive, buffer.e.drive, s.e.setup) && buffer.s.failure is None
                    && !buffer.e.drive.running
            }
            &&& s.e.wishes.recording ==> recording == s
            &&& !s.e.wishes.recording ==> {
                &&& recording.e.wishes == (Wishes { recording: true, ..s.e.wishes })
                &&& recording.s.recording == SinkRecording::Pending(path)
                &&& recording.s.buffer_enabled == s.s.buffer_enabled
                &&& recording.e.setup == s.e.setup
                &&& if up {
                    recording.e.drive == s.e.drive && recording.s.failure == s.s.failure
                } else {
                    starts_anew(s.e.drive, recording.e.drive, s.e.setup)
                        && recording.s.failure is None && !recording.e.drive.running
                }
            }
        }),
{
    reveal(Session::buffer_started);
    reveal(Session::recording_started);
    reveal(Session::ensured);
    reveal(Session::started);
    starting_starts_anew(s.e.drive.stopped(), s.e.setup);
    let after = s.e.drive.stopped().started(s.e.setup);
    assert(s.e.drive.commands.is_prefix_of(after.commands)) by {
        let down = s.e.drive.stopped();
        assert(after.commands.take(down.commands.len() as int) =~= down.commands);
        assert(after.commands.take(s.e.drive.commands.len() as int) =~= s.e.drive.commands);
    }
}

/// Turning the buffer off empties it. The capture stops, unless a recording
/// still needs it: then it is left alone.
pub proof fn the_buffer_stops_and_is_emptied(s: Session)
    ensures
        ({
            let after = s.buffer_stopped();
            &&& after.e.wishes == (Wishes { buffer: false, auto_buffer: false, ..s.e.wishes })
            &&& !after.s.buffer_enabled
            &&& after.s.recording == s.s.recording
            &&& after.s.failure == s.s.failure
            &&& after.e.drive.commands.len() > s.e.drive.commands.len()
            &&& after.e.drive.commands[s.e.drive.commands.len() as int] == Command::ClearBuffer
            &&& s.e.drive.commands.is_prefix_of(after.e.drive.commands)
            &&& after.e.drive.generation == s.e.drive.generation
            &&& if s.e.wishes.recording {
                &&& after.e.drive.running == s.e.drive.running
                &&& after.e.drive.starting == s.e.drive.starting
                &&& after.e.drive.commands.len() == s.e.drive.commands.len() + 1
            } else {
                &&& !is_up(after.e.drive)
                &&& after.e.drive.commands.last() == Command::StopBackend
            }
        }),
{
    reveal(Session::buffer_stopped);
    assert(s.e.drive.commands.is_prefix_of(s.buffer_stopped().e.drive.commands));
}

/// A toggle turns the buffer off exactly when someone wants it and it fills or is
/// on its way up.
pub proof fn a_toggle_follows_what_runs(s: Session)
    ensures
        s.toggles_off() == ((s.e.wishes.buffer || s.e.wishes.auto_buffer) && (s.e.drive.running
            && s.s.failure is None || s.e.drive.starting is Some)),
{
}

/// Stopping a recording ends it and nothing else while the buffer is wanted:
/// the capture goes on, unless a restart was waiting for the end. An open file
/// is finished and named; a recording without a frame, or one that failed, is
/// reported; without a recording nothing happens.
pub proof fn a_stopped_recording_is_accounted_for(s: Session)
    requires
        s.e.drive.generation < u64::MAX,
    ensures
        ({
            let after = s.recording_stopped();
            &&& !s.e.wishes.recording ==> after == s && s.stop_outcome() is Nothing
            &&& s.e.wishes.recording ==> {
                &&& after.e.wishes == (Wishes {
                    recording: false,
                    auto_recording: false,
                    ..s.e.wishes
                })
                &&& after.s.recording is Idle
                &&& after.s.buffer_enabled == s.s.buffer_enabled
                &&& after.e.finishing == (s.e.finishing || s.s.recording is Active)
                &&& !after.e.restart_pending
                &&& after.e.setup == s.e.setup
                &&& s.e.wishes.buffer || s.e.wishes.auto_buffer ==> if s.e.restart_pending {
                    restarts_anew(s.e.drive, after.e.drive, s.e.setup)
                } else {
                    after.e.drive == s.e.drive
                }
                &&& !(s.e.wishes.buffer || s.e.wishes.auto_buffer) ==> !is_up(after.e.drive)
                    && after.e.drive.commands.len() > s.e.drive.commands.len()
                    && after.e.drive.commands[s.e.drive.commands.len() as int]
                    == Command::StopBackend
                &&& match s.s.recording {
                    SinkRecording::Active { path, .. } => s.stop_outcome() == StopView::Finish(path),
                    SinkRecording::Pending(_) => s.stop_outcome() is Report,
                    SinkRecording::Failed(reason) => s.stop_outcome() == StopView::Report(reason@),
                    SinkRecording::Idle => s.stop_outcome() is Nothing,
                }
            }
        }),
{
    reveal(Session::recording_stopped);
    reveal(Session::recording_ended);
    reveal(Session::restarted);
    reveal(DriveView::restarted);
    restarting_restarts_anew(s.e.drive, s.e.setup);
}

} // verus!
