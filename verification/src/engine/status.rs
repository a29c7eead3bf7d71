//! Following the capture: the outcome of starts, failures, new settings and
//! displays, and the state that the interface shows.
use std::collections::VecDeque;

use vstd::prelude::*;

use super::model::{Command, ConfigChanges};
use super::{BufferReport, BufferState, ClipRequest, Engine, EngineStatus, RecordingState};
use crate::config::{position_of_monitor, same_monitors, Config, DisplaySelection, EncoderInfo,
    MonitorInfo};
use crate::error::{AppError, CaptureError};
use crate::sink::{CaptureSink, SinkRecording};
use crate::text::{join3, same};
use crate::ui::events::ClipFile;

verus! {

/// Whether two lists of processes by application are the same.
fn same_pids(a: &Vec<(String, u32)>, b: &Vec<(String, u32)>) -> (r: bool)
    ensures
        r == (super::pid_views(a@) == super::pid_views(b@)),
{
    if a.len() != b.len() {
        assert(super::pid_views(a@).len() != super::pid_views(b@).len());
        return false;
    }
    let mut i: usize = 0;
    while i < a.len()
        invariant
            i <= a.len() == b.len(),
            forall|k: int| 0 <= k < i ==> super::pid_views(a@)[k] == super::pid_views(b@)[k],
        decreases a.len() - i,
    {
        if !(same(a[i].0.as_str(), b[i].0.as_str()) && a[i].1 == b[i].1) {
            assert(super::pid_views(a@)[i as int] != super::pid_views(b@)[i as int]);
            return false;
        }
        i = i + 1;
    }
    assert(super::pid_views(a@) =~= super::pid_views(b@));
    true
}

/// Forgets the restarts that are more than a minute old.
fn forget_old(restarts: &mut VecDeque<u64>, now: u64)
    ensures
        final(restarts)@ == super::model::recent(old(restarts)@, now),
{
    while restarts.len() > 0 && now > restarts[0] && now - restarts[0] > 60_000_000_000
        invariant
            super::model::recent(restarts@, now) == super::model::recent(old(restarts)@, now),
        decreases restarts.len(),
    {
        let ghost before = restarts@;
        let _ = restarts.pop_front();
        assert(restarts@ =~= before.drop_first());
    }
}

fn clears_buffer(commands: &Vec<Command>) -> (r: bool)
    ensures
        r == commands@.contains(Command::ClearBuffer),
{
    let mut i: usize = 0;
    while i < commands.len()
        invariant
            i <= commands.len(),
            forall|k: int| 0 <= k < i ==> commands@[k] != Command::ClearBuffer,
        decreases commands.len() - i,
    {
        if let Command::ClearBuffer = &commands[i] {
            assert(commands@[i as int] == Command::ClearBuffer);
            return true;
        }
        i = i + 1;
    }
    false
}

impl ClipRequest {
    /// Goes on to write the clip, unless the replay buffer had nothing to take:
    /// then no file is written and the caller is told.
    pub fn begin(self, taken: bool) -> (r: Result<ClipRequest, String>)
        ensures
            if taken {
                r == Ok::<ClipRequest, String>(self)
            } else {
                r matches Err(text) && text@ == "the replay buffer is empty, nothing to save"@
            },
    {
        if taken {
            Ok(self)
        } else {
            Err(CaptureError::EmptyBuffer.message())
        }
    }

    /// What the caller is told once the clip was written or could not be: a
    /// clip carries the game of the request.
    pub fn finish(self, written: Result<ClipFile, CaptureError>) -> (r: Result<ClipFile, String>)
        ensures
            match written {
                Ok(clip) => r == Ok::<ClipFile, String>(ClipFile { game: self.game, ..clip }),
                Err(error) => r matches Err(text) && text@ == error.text(),
            },
    {
        match written {
            Ok(clip) => Ok(ClipFile { game: self.game, ..clip }),
            Err(error) => Err(error.message()),
        }
    }
}

impl Engine {
    fn come_up(&mut self, encoder: EncoderInfo)
        ensures
            final(self)@ == old(self)@.came_up(encoder),
            final(self).drive.generation == old(self).drive.generation,
    {
        reveal(super::model::EngineView::came_up);
        self.drive.starting = None;
        self.app_audio = self.setup.app_pids();
        if !encoder.same(&self.setup.preferred) {
            let mut text = join3(
                self.setup.preferred.kind.label(),
                " could not start, using ",
                encoder.kind.label(),
            );
            text.append(" instead.");
            self.drive.add_notice(text);
        }
        self.active = encoder;
    }

    /// Applies the outcome of the attempt that the plan waits for and
    /// launches the next step of the plan when there is one.
    pub(crate) fn attempt_finished(&mut self, result: Result<(), CaptureError>)
        requires
            old(self).drive.generation < u64::MAX,
        ensures
            final(self)@ == old(self)@.attempted(result),
            final(self).drive.generation <= old(self).drive.generation + 1,
    {
        reveal(super::model::EngineView::attempted);
        let candidate = match &self.drive.starting {
            None => return ,
            Some(plan) => {
                if plan.index < plan.candidates.len() {
                    Some(plan.candidates[plan.index].clone())
                } else {
                    None
                }
            },
        };
        match (candidate, result) {
            (None, _) => self.drive.starting = None,
            (Some(candidate), Ok(())) => self.come_up(candidate),
            (Some(_), Err(error)) => self.drive.attempt_failed(&self.setup, &error),
        }
    }

    /// At most three automatic restarts per minute; after that the failure is
    /// surfaced and the user decides. A refused one is not counted. `now` is in
    /// nanoseconds.
    pub fn allow_restart(&mut self, now: u64) -> (r: bool)
        ensures
            r == old(self)@.may_restart(now),
            final(self)@ == (super::model::EngineView {
                restarts: old(self)@.restarts_after(now),
                ..old(self)@
            }),
    {
        forget_old(&mut self.restarts, now);
        if self.restarts.len() >= 3 {
            return false;
        }
        self.restarts.push_back(now);
        true
    }

    /// Applies the outcome of the attempts that finished since the last
    /// call. An outcome that the plan does not wait for is dropped.
    pub fn poll_start(&mut self, reports: Vec<(u64, Result<(), CaptureError>)>)
        requires
            old(self).drive.generation + reports.len() <= u64::MAX,
        ensures
            final(self)@ == old(self)@.polled(reports@),
            final(self).drive.generation <= old(self).drive.generation + reports.len(),
    {
        let ghost all = reports@;
        let count: usize = reports.len();
        let mut i: usize = 0;
        while i < count
            invariant
                i <= count == all.len(),
                reports@ == all,
                old(self).drive.generation + count <= u64::MAX,
                self@ == old(self)@.polled(all.take(i as int)),
                self.drive.generation <= old(self).drive.generation + i,
            decreases count - i,
        {
            let generation: u64 = reports[i].0;
            let current = match &self.drive.starting {
                Some(plan) => plan.generation == generation,
                None => false,
            };
            let ghost before = self@;
            if current {
                let result = match &reports[i].1 {
                    Ok(()) => Ok(()),
                    Err(error) => Err(error.clone()),
                };
                self.attempt_finished(result);
                assert(self@ == before.attempted(all[i as int].1)) by {
                    reveal(super::model::EngineView::attempted);
                }
            }
            assert(self@ == before.reported(all[i as int]));
            assert(all.take(i + 1).drop_last() =~= all.take(i as int));
            i = i + 1;
        }
        assert(all.take(count as int) =~= all);
    }

    /// Restarts the capture when an application with its own audio track
    /// starts or stops, so the track appears or disappears. Deferred while
    /// recording.
    pub fn poll_app_audio(&mut self, sink: &mut CaptureSink) -> (r: Result<(), AppError>)
        requires
            old(self).drive.generation < u64::MAX,
        ensures
            r is Ok,
            super::session(*final(self), *final(sink)) == super::session(
                *old(self),
                *old(sink),
            ).app_audio_polled(),
    {
        let now = self.setup.app_pids();
        if !same_pids(&now, &self.app_audio) && self.is_engaged() && !self.wishes.recording {
            self.restart_capture(sink);
        }
        Ok(())
    }

    /// Sends the level of every audio source to the backend.
    fn apply_audio_levels(&mut self)
        ensures
            final(self)@ == old(self)@.driving(
                super::model::DriveView {
                    commands: old(self)@.drive.commands
                        + old(self).setup.config.audio.sources@.map_values(
                        super::model::level_command(),
                    ),
                    ..old(self)@.drive
                },
            ),
            final(self).drive.generation == old(self).drive.generation,
    {
        let ghost sources = self.setup.config.audio.sources@;
        let ghost levels = sources.map_values(super::model::level_command());
        let ghost before = self.drive;
        let mut i: usize = 0;
        assert(before.commands@ =~= before.commands@ + levels.take(0));
        while i < self.setup.config.audio.sources.len()
            invariant
                i <= sources.len(),
                sources == self.setup.config.audio.sources@,
                levels == sources.map_values(super::model::level_command()),
                *self == (Engine { drive: self.drive, ..*old(self) }),
                self.drive == (super::model::Drive { commands: self.drive.commands, ..before }),
                self.drive.commands@ == before.commands@ + levels.take(i as int),
            decreases sources.len() - i,
        {
            let source = &self.setup.config.audio.sources[i];
            let command = Command::SetAudioLevel {
                kind: source.kind,
                id: source.id.clone(),
                volume: source.volume,
                muted: source.muted,
            };
            assert(command == levels[i as int]);
            self.drive.commands.push(command);
            i = i + 1;
            assert(levels.take(i as int) =~= levels.take(i - 1).push(levels[i - 1]));
            assert(self.drive.commands@ =~= before.commands@ + levels.take(i as int));
        }
        assert(levels.take(i as int) =~= levels);
    }

    /// Takes new settings over, before the running capture follows them.
    fn reconfigure(
        &mut self,
        Ghost(sink): Ghost<CaptureSink>,
        next: Config,
        changes: ConfigChanges,
        chosen: Option<EncoderInfo>,
    )
        ensures
            super::session(*final(self), sink) == super::session(*old(self), sink).reconfigured(
                next,
                changes,
                chosen,
            ),
            final(self).drive.generation == old(self).drive.generation,
    {
        let encoder_changed = self.setup.config.capture.encoder != next.capture.encoder;
        self.setup.config = next;
        if let Some(encoder) = chosen {
            if encoder_changed {
                self.setup.preferred = encoder;
            }
        }
        if changes.replay_limits {
            let limits = self.setup.replay_limits();
            self.drive.push_command(limits);
        }
    }

    /// Applies a new configuration: live limits and levels immediately,
    /// pipeline settings through a restart (deferred while recording).
    /// `changes` says what differs from the settings in force, `chosen` is
    /// the encoder that the new ones choose among the registered ones.
    /// Returns whether the hotkeys must be re-registered.
    pub fn apply_config(
        &mut self,
        sink: &mut CaptureSink,
        next: Config,
        changes: ConfigChanges,
        chosen: Option<EncoderInfo>,
    ) -> (r: Result<bool, AppError>)
        requires
            old(self).drive.generation < u64::MAX,
        ensures
            r == Ok::<bool, AppError>(changes.hotkeys),
            super::session(*final(self), *final(sink)) == super::session(
                *old(self),
                *old(sink),
            ).configured(next, changes, chosen),
    {
        self.reconfigure(Ghost(*sink), next, changes, chosen);
        if changes.capture_restart {
            self.drive.unavailable_audio.clear();
            assert(self.drive@.unavailable_audio =~= Set::empty());
            // Changed capture settings get a fresh attempt at game capture.
            self.drive.game_capture_unavailable = false;
            if self.is_engaged() {
                if self.wishes.recording {
                    self.restart_pending = true;
                    self.drive.notice = Some(
                        "Capture settings apply when the current recording stops.".to_owned(),
                    );
                } else {
                    self.restart_capture(sink);
                }
            }
        } else if changes.audio_levels {
            self.apply_audio_levels();
        }
        Ok(changes.hotkeys)
    }

    /// Takes over the displays that are connected now, if they could be
    /// listed. Returns true when the set changed. A running capture of a
    /// display that disappeared, be it that of the settings or that of the
    /// active game, is restarted on the primary.
    pub fn refresh_monitors(
        &mut self,
        sink: &mut CaptureSink,
        current: Option<Vec<MonitorInfo>>,
    ) -> (r: bool)
        requires
            old(self).drive.generation < u64::MAX,
        ensures
            ({
                let before = super::session(*old(self), *old(sink));
                match current {
                    None => !r && super::session(*final(self), *final(sink)) == before,
                    Some(list) => {
                        &&& r == (crate::config::monitor_views(list@)
                            != crate::config::monitor_views(old(self).setup.monitors@))
                        &&& super::session(*final(self), *final(sink))
                            == before.monitors_refreshed(list)
                    },
                }
            }),
    {
        reveal(super::model::Session::monitors_refreshed);
        let current = match current {
            Some(list) => list,
            None => return false,
        };
        if same_monitors(&current, &self.setup.monitors) {
            return false;
        }
        self.setup.monitors = current;
        let gone = match self.setup.effective_display() {
            DisplaySelection::Monitor(id) => position_of_monitor(
                self.setup.monitors.as_slice(),
                id.as_str(),
            ).is_none(),
            DisplaySelection::Primary => false,
        };
        if gone && self.is_engaged() && !self.wishes.recording {
            self.restart_capture(sink);
        }
        true
    }

    /// Retires a failed capture so the interface can show the failure and the
    /// user can retry. A failed audio device is dropped and capture restarts
    /// without it; while recording, the restart rotates the file, so the
    /// recording goes on in a new one instead of stalling. `now` is in
    /// nanoseconds.
    pub fn retire_failure(&mut self, sink: &mut CaptureSink, now: u64)
        requires
            old(self).drive.generation < u64::MAX,
        ensures
            super::session(*final(self), *final(sink)) == super::session(
                *old(self),
                *old(sink),
            ).failure_retired(now),
    {
        reveal(super::model::Session::failure_retired);
        let failure = match sink.failure.take() {
            Some(failure) => failure,
            None => return ,
        };
        self.drive.stop_backend();
        let wanted = self.wants_capture();
        match &failure {
            CaptureError::AudioSource { key, .. } => self.drive.go_on_without(
                &self.setup,
                wanted,
                key,
            ),
            // Game capture could not start or the hook died: fall back to
            // display capture for the rest of this session.
            CaptureError::GameCapture(message) if wanted => self.drive.unhook(
                &self.setup,
                message.as_str(),
            ),
            CaptureError::Pipeline { message, .. } if wanted => {
                let allowed = self.allow_restart(now);
                self.drive.recover(&self.setup, allowed, message.as_str());
            },
            _ => self.drive.last_failure = Some(failure.message()),
        }
    }

    /// The state of the replay buffer.
    pub fn buffer_state(&self, sink: &CaptureSink) -> (r: BufferState)
        ensures
            match self.drive.last_failure {
                Some(failure) => r == BufferState::Failed(failure),
                None => if super::session(*self, *sink).buffering() {
                    r == BufferState::Running
                } else if self.drive.starting is Some && self.wishes.any_buffer() {
                    r == BufferState::Starting
                } else {
                    r == BufferState::Stopped
                },
            },
    {
        match &self.drive.last_failure {
            Some(failure) => BufferState::Failed(failure.clone()),
            None => {
                if self.is_buffering(sink) {
                    BufferState::Running
                } else if self.drive.starting.is_some() && (self.wishes.buffer
                    || self.wishes.auto_buffer) {
                    BufferState::Starting
                } else {
                    BufferState::Stopped
                }
            },
        }
    }

    /// The state of the recording.
    pub fn recording_state(&self, sink: &CaptureSink) -> (r: RecordingState)
        ensures
            r == if self.finishing {
                RecordingState::Finishing
            } else {
                match sink.recording {
                    SinkRecording::Idle => RecordingState::Idle,
                    SinkRecording::Pending(_) => RecordingState::Starting,
                    SinkRecording::Active { path, first, last } => RecordingState::Active {
                        path,
                        duration: if last >= first {
                            (last - first) as u64
                        } else {
                            0
                        },
                    },
                    SinkRecording::Failed(reason) => RecordingState::Failed(reason),
                }
            },
    {
        if self.finishing {
            return RecordingState::Finishing;
        }
        match &sink.recording {
            SinkRecording::Idle => RecordingState::Idle,
            SinkRecording::Pending(_) => RecordingState::Starting,
            SinkRecording::Active { path, first, last } => RecordingState::Active {
                path: path.clone(),
                duration: (*last).saturating_sub(*first),
            },
            SinkRecording::Failed(reason) => RecordingState::Failed(reason.clone()),
        }
    }

    fn report_status(&mut self, sink: &CaptureSink, report: BufferReport) -> (r: EngineStatus)
        ensures
            ({
                let before = super::session(*old(self), *sink);
                &&& final(self)@ == (super::model::EngineView {
                    blank_warned: before.warns_of(report),
                    ..before.e
                })
                &&& before.has_status(report, r)
            }),
    {
        let buffer = self.buffer_state(sink);
        let recording = self.recording_state(sink);
        if report.stats.looks_blank && !self.blank_warned && self.is_capturing(sink) {
            self.blank_warned = true;
        } else if !report.stats.looks_blank {
            self.blank_warned = false;
        }
        EngineStatus {
            buffer,
            recording,
            report,
            encoder: self.active.clone(),
            backend: self.backend,
            replay_length: self.setup.effective_replay_length(),
            notice: match &self.drive.notice {
                Some(text) => Some(text.clone()),
                None => None,
            },
            blank: self.blank_warned,
        }
    }

    /// Reports the current state, retiring a failed capture so that the
    /// interface can show the failure and the user can retry: the outcomes of
    /// the start attempts come first, then the failure that the capture threads
    /// left, then the report. `report` is what the replay buffer says about
    /// itself, `cleared` what it says once it was cleared; the latter counts
    /// when the commands that are now waiting clear it. `now` is in
    /// nanoseconds.
    pub fn status(
        &mut self,
        sink: &mut CaptureSink,
        reports: Vec<(u64, Result<(), CaptureError>)>,
        now: u64,
        report: BufferReport,
        cleared: BufferReport,
    ) -> (r: EngineStatus)
        requires
            old(self).drive.generation + reports.len() < u64::MAX,
        ensures
            ({
                let at = super::session(*old(self), *old(sink)).settled(reports@, now);
                let shown = if at.e.drive.commands.contains(Command::ClearBuffer) {
                    cleared
                } else {
                    report
                };
                &&& super::session(*final(self), *final(sink)) == (super::model::Session {
                    e: super::model::EngineView { blank_warned: at.warns_of(shown), ..at.e },
                    ..at
                })
                &&& at.has_status(shown, r)
            }),
    {
        self.poll_start(reports);
        self.retire_failure(sink, now);
        if clears_buffer(&self.drive.commands) {
            self.report_status(sink, cleared)
        } else {
            self.report_status(sink, report)
        }
    }

    /// What a clip to be saved is made of. `length` limits how many nanoseconds
    /// back it reaches; `None` or zero saves the whole buffer, and so does a
    /// length beyond it.
    pub fn save_clip(&self, length: Option<u128>) -> (r: ClipRequest)
        ensures
            r.length == (match length {
                Some(l) if 0 < l < self.setup.replay_seconds() * 1_000_000_000 => l as int,
                _ => self.setup.replay_seconds() * 1_000_000_000,
            }),
            super::model::text_view(r.game) == (if self.setup.game().len() == 0 {
                None
            } else {
                Some(self.setup.game())
            }),
    {
        let full: u64 = self.setup.effective_replay_length() as u64 * 1_000_000_000;
        let length: u64 = match length {
            Some(l) if l > 0 && l < full as u128 => l as u64,
            _ => full,
        };
        let game = self.setup.game_name();
        let game = if game.as_str().unicode_len() == 0 {
            None
        } else {
            Some(game)
        };
        ClipRequest { length, game }
    }
}

} // verus!
