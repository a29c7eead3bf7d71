//! What the user can start and stop.
use vstd::prelude::*;

use super::model::{Command, StopOutcome};
use super::Engine;
use crate::error::AppError;
use crate::sink::{CaptureSink, FilePath, SinkRecording};

verus! {

impl Engine {
    pub(crate) fn release_capture_if_unused(&mut self)
        ensures
            final(self)@ == old(self)@.released(),
    {
        if !self.wants_capture() {
            self.drive.stop_backend();
        }
    }

    pub(crate) fn start_capture(&mut self, sink: &mut CaptureSink)
        requires
            old(self).drive.generation < u64::MAX,
        ensures
            super::session(*final(self), *final(sink)) == super::session(
                *old(self),
                *old(sink),
            ).started(),
            final(self).drive.generation <= old(self).drive.generation + 1,
    {
        reveal(super::model::Session::started);
        sink.failure = None;
        self.drive.start_capture(&self.setup);
    }

    pub(crate) fn ensure_capture(&mut self, sink: &mut CaptureSink)
        requires
            old(self).drive.generation < u64::MAX,
        ensures
            super::session(*final(self), *final(sink)) == super::session(
                *old(self),
                *old(sink),
            ).ensured(),
            final(self).drive.generation <= old(self).drive.generation + 1,
    {
        reveal(super::model::Session::ensured);
        if self.is_capturing(sink) || self.drive.starting.is_some() {
            return ;
        }
        self.drive.stop_backend();
        self.start_capture(sink);
    }

    pub(crate) fn restart_capture(&mut self, sink: &mut CaptureSink)
        requires
            old(self).drive.generation < u64::MAX,
        ensures
            super::session(*final(self), *final(sink)) == super::session(
                *old(self),
                *old(sink),
            ).restarted(),
            final(self).drive.generation <= old(self).drive.generation + 1,
    {
        reveal(super::model::Session::restarted);
        let wanted = self.wants_capture();
        if wanted {
            sink.failure = None;
        }
        self.drive.restart(&self.setup, wanted);
    }

    /// Turns the replay buffer on.
    pub fn start_buffer(&mut self, sink: &mut CaptureSink) -> (r: Result<(), AppError>)
        requires
            old(self).drive.generation < u64::MAX,
        ensures
            r is Ok,
            super::session(*final(self), *final(sink)) == super::session(
                *old(self),
                *old(sink),
            ).buffer_started(),
            final(self).drive.generation <= old(self).drive.generation + 1,
    {
        reveal(super::model::Session::buffer_started);
        self.wishes.buffer = true;
        sink.buffer_enabled = true;
        self.ensure_capture(sink);
        Ok(())
    }

    /// Turns the replay buffer off and empties it.
    pub fn stop_buffer(&mut self, sink: &mut CaptureSink)
        ensures
            super::session(*final(self), *final(sink)) == super::session(
                *old(self),
                *old(sink),
            ).buffer_stopped(),
    {
        reveal(super::model::Session::buffer_stopped);
        self.wishes.buffer = false;
        self.wishes.auto_buffer = false;
        sink.buffer_enabled = false;
        self.drive.push_command(Command::ClearBuffer);
        self.release_capture_if_unused();
    }

    /// Turns the replay buffer off when it runs or is on its way up, on
    /// otherwise.
    pub fn toggle_buffer(&mut self, sink: &mut CaptureSink) -> (r: Result<(), AppError>)
        requires
            old(self).drive.generation < u64::MAX,
        ensures
            r is Ok,
            ({
                let before = super::session(*old(self), *old(sink));
                super::session(*final(self), *final(sink)) == if before.toggles_off() {
                    before.buffer_stopped()
                } else {
                    before.buffer_started()
                }
            }),
    {
        let starting_for_buffer = self.drive.starting.is_some() && (self.wishes.buffer
            || self.wishes.auto_buffer);
        if self.is_buffering(sink) || starting_for_buffer {
            self.stop_buffer(sink);
            Ok(())
        } else {
            self.start_buffer(sink)
        }
    }

    /// Starts a session recording into `path`, starting capture first when
    /// needed. The file opens at the next keyframe.
    pub fn start_recording(&mut self, sink: &mut CaptureSink, path: FilePath) -> (r: Result<
        (),
        AppError,
    >)
        requires
            old(self).drive.generation < u64::MAX,
        ensures
            r is Ok,
            super::session(*final(self), *final(sink)) == super::session(
                *old(self),
                *old(sink),
            ).recording_started(path),
            final(self).drive.generation <= old(self).drive.generation + 1,
    {
        reveal(super::model::Session::recording_started);
        if self.wishes.recording {
            return Ok(());
        }
        self.ensure_capture(sink);
        sink.recording = SinkRecording::Pending(path);
        self.wishes.recording = true;
        Ok(())
    }

    fn end_recording(&mut self, sink: &mut CaptureSink) -> (r: StopOutcome)
        requires
            old(self).wishes.recording,
        ensures
            r@ == super::session(*old(self), *old(sink)).stop_outcome(),
            super::session(*final(self), *final(sink)) == super::session(
                *old(self),
                *old(sink),
            ).recording_ended(),
            final(self).drive.generation == old(self).drive.generation,
    {
        reveal(super::model::Session::recording_ended);
        self.wishes.recording = false;
        self.wishes.auto_recording = false;
        let mut state = SinkRecording::Idle;
        std::mem::swap(&mut state, &mut sink.recording);
        let outcome = match state {
            SinkRecording::Active { path, .. } => {
                self.finishing = true;
                StopOutcome::Finish(path)
            },
            SinkRecording::Pending(_) => StopOutcome::Report("no frame was recorded".to_owned()),
            SinkRecording::Failed(reason) => StopOutcome::Report(reason),
            SinkRecording::Idle => StopOutcome::Nothing,
        };
        self.release_capture_if_unused();
        outcome
    }

    /// Stops the recording. The outcome says what becomes of its file.
    pub fn stop_recording(&mut self, sink: &mut CaptureSink) -> (r: StopOutcome)
        requires
            old(self).drive.generation < u64::MAX,
        ensures
            r@ == super::session(*old(self), *old(sink)).stop_outcome(),
            super::session(*final(self), *final(sink)) == super::session(
                *old(self),
                *old(sink),
            ).recording_stopped(),
            final(self).drive.generation <= old(self).drive.generation + 1,
    {
        reveal(super::model::Session::recording_stopped);
        if !self.wishes.recording {
            return StopOutcome::Nothing;
        }
        let outcome = self.end_recording(sink);
        if self.restart_pending {
            self.restart_pending = false;
            self.restart_capture(sink);
        }
        outcome
    }

    /// Stops the recording when there is one, starts one into `path`
    /// otherwise.
    pub fn toggle_recording(&mut self, sink: &mut CaptureSink, path: FilePath) -> (r: Result<
        StopOutcome,
        AppError,
    >)
        requires
            old(self).drive.generation < u64::MAX,
        ensures
            ({
                let before = super::session(*old(self), *old(sink));
                &&& r matches Ok(outcome) && outcome@ == before.stop_outcome()
                &&& super::session(*final(self), *final(sink)) == if before.e.wishes.recording {
                    before.recording_stopped()
                } else {
                    before.recording_started(path)
                }
            }),
    {
        if self.wishes.recording {
            Ok(self.stop_recording(sink))
        } else {
            match self.start_recording(sink, path) {
                Ok(()) => Ok(StopOutcome::Nothing),
                Err(err) => Err(err),
            }
        }
    }

    /// Called when the worker thread reports that the file is closed.
    pub fn recording_finished(&mut self)
        ensures
            final(self)@ == (super::model::EngineView { finishing: false, ..old(self)@ }),
    {
        self.finishing = false;
    }
}

} // verus!
