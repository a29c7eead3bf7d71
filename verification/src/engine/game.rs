//! Following the running games.
use vstd::prelude::*;

use super::model::{Command, StopOutcome};
use super::Engine;
use crate::config::{AutoCapture, DetectedGame};
use crate::error::AppError;
use crate::sink::{CaptureSink, FilePath};
use crate::text::same;

verus! {

impl Engine {
    fn same_game(a: &Option<DetectedGame>, b: &Option<DetectedGame>) -> (r: bool)
        ensures
            r == super::model::same_game(*a, *b),
    {
        match (a, b) {
            (Some(x), Some(y)) => same(x.exe.as_str(), y.exe.as_str()),
            (None, None) => true,
            _ => false,
        }
    }

    fn change_game(&mut self, sink: &mut CaptureSink, active: Option<DetectedGame>)
        requires
            old(self).drive.generation < u64::MAX,
        ensures
            super::session(*final(self), *final(sink)) == super::session(
                *old(self),
                *old(sink),
            ).game_changed(active),
            final(self).drive.generation <= old(self).drive.generation + 1,
    {
        reveal(super::model::Session::game_changed);
        let previous_display = self.setup.effective_display();
        let previous_pid = self.setup.game_capture_pid(self.drive.game_capture_unavailable);
        self.setup.active_game = active;
        // A new game gets a fresh attempt at game capture.
        self.drive.game_capture_unavailable = false;
        let limits = self.setup.replay_limits();
        self.drive.push_command(limits);
        // Restart when the source changes: a different display, or a
        // different game capture target (which display comparison misses).
        let display_changed = !self.setup.effective_display().same(&previous_display);
        let source_changed = display_changed || self.setup.game_capture_pid(false) != previous_pid;
        if source_changed && self.is_engaged() && !self.wishes.recording {
            self.restart_capture(sink);
        }
    }

    fn follow_game(&mut self, sink: &mut CaptureSink, active: Option<DetectedGame>)
        requires
            old(self).drive.generation < u64::MAX,
        ensures
            super::session(*final(self), *final(sink)) == super::session(
                *old(self),
                *old(sink),
            ).game_followed(active),
            final(self).drive.generation <= old(self).drive.generation + 1,
    {
        reveal(super::model::Session::game_followed);
        if Self::same_game(&active, &self.setup.active_game) {
            self.setup.active_game = active;
        } else {
            self.change_game(sink, active);
        }
    }

    fn apply_auto_buffer(&mut self, sink: &mut CaptureSink, want: bool)
        requires
            old(self).drive.generation < u64::MAX,
        ensures
            super::session(*final(self), *final(sink)) == super::session(
                *old(self),
                *old(sink),
            ).auto_buffered(want),
            final(self).drive.generation <= old(self).drive.generation + 1,
    {
        reveal(super::model::Session::auto_buffered);
        if want == self.wishes.auto_buffer {
            return ;
        }
        self.wishes.auto_buffer = want;
        sink.buffer_enabled = self.wishes.buffer || self.wishes.auto_buffer;
        if self.wishes.auto_buffer {
            self.ensure_capture(sink);
        } else if !self.wishes.buffer {
            self.drive.push_command(Command::ClearBuffer);
            self.release_capture_if_unused();
        }
    }

    /// Applies the watcher's view: the active game (for naming and
    /// overrides) and what capture should be doing in per game scope. `path`
    /// is where a recording for that game goes. The outcome says what becomes
    /// of the file of a recording that ended.
    pub fn set_game_state(
        &mut self,
        sink: &mut CaptureSink,
        active: Option<DetectedGame>,
        auto: AutoCapture,
        path: FilePath,
    ) -> (r: Result<StopOutcome, AppError>)
        requires
            old(self).drive.generation <= u64::MAX - 3,
        ensures
            ({
                let before = super::session(*old(self), *old(sink));
                let applied = before.game_followed(active).auto_buffered(
                    auto == AutoCapture::Buffer,
                );
                &&& super::session(*final(self), *final(sink)) == before.game_set(
                    active,
                    auto,
                    path,
                )
                &&& r matches Ok(outcome)
                &&& outcome@ == if auto != AutoCapture::Recording
                    && applied.e.wishes.auto_recording {
                    applied.stop_outcome()
                } else {
                    super::model::StopView::Nothing
                }
            }),
    {
        reveal(super::model::Session::auto_recorded);
        self.follow_game(sink, active);
        let want_buffer = auto == AutoCapture::Buffer;
        let want_recording = auto == AutoCapture::Recording;
        self.apply_auto_buffer(sink, want_buffer);
        if want_recording && !self.wishes.recording {
            self.wishes.auto_recording = true;
            match self.start_recording(sink, path) {
                Ok(()) => Ok(StopOutcome::Nothing),
                Err(err) => Err(err),
            }
        } else if !want_recording && self.wishes.auto_recording && self.wishes.recording {
            Ok(self.stop_recording(sink))
        } else {
            Ok(StopOutcome::Nothing)
        }
    }
}

} // verus!
