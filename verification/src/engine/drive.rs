//! The capture on its way up, one encoder after the other.
use vstd::prelude::*;

use super::model::{Command, Drive, Setup};
use crate::error::CaptureError;
use crate::text::{join, join2, join3, list_contains};

verus! {

impl Drive {
    pub(crate) fn push_command(&mut self, command: Command)
        ensures
            final(self)@ == old(self)@.commanding(command),
    {
        self.commands.push(command);
    }

    /// Stops the capture, or cancels the start in flight, and forgets the
    /// plan behind it. A cancelled attempt still reports back; its
    /// generation no longer matches and the result is dropped.
    pub(crate) fn stop_backend(&mut self)
        ensures
            final(self)@ == old(self)@.stopped(),
    {
        self.commands.push(Command::StopBackend);
        self.running = false;
        self.starting = None;
    }

    pub(crate) fn add_notice(&mut self, text: String)
        ensures
            final(self)@ == old(self)@.noticed(text@),
    {
        self.notice = match self.notice.take() {
            Some(existing) => Some(join3(existing.as_str(), " ", text.as_str())),
            None => Some(text),
        };
    }

    /// Remembers an audio source as unavailable.
    pub(crate) fn drop_audio_source(&mut self, key: &String)
        ensures
            final(self)@ == (super::model::DriveView {
                unavailable_audio: old(self)@.unavailable_audio.insert(key@),
                ..old(self)@
            }),
    {
        let ghost before = crate::text::views(self.unavailable_audio@);
        if !list_contains(&self.unavailable_audio, key.as_str()) {
            self.unavailable_audio.push(key.clone());
            let ghost after = crate::text::views(self.unavailable_audio@);
            assert(after =~= before.push(key@));
            assert(after.to_set() =~= before.to_set().insert(key@)) by {
                assert(after[before.len() as int] == key@);
                assert forall|x: Seq<char>| before.contains(x) implies after.contains(x) by {
                    let i = choose|i: int| 0 <= i < before.len() && before[i] == x;
                    assert(after[i] == x);
                }
            }
        } else {
            assert(before.to_set() =~= before.to_set().insert(key@));
        }
    }

    /// Hands the current candidate of the plan to the backend.
    pub(crate) fn launch_attempt(&mut self)
        requires
            old(self).generation < u64::MAX,
        ensures
            final(self)@ == old(self)@.launched(),
    {
        let generation: u64 = self.generation + 1;
        self.generation = generation;
        match &mut self.starting {
            None => {},
            Some(plan) => {
                if plan.index < plan.candidates.len() {
                    plan.generation = generation;
                    let encoder = plan.candidates[plan.index].clone();
                    let display = plan.display.clone();
                    self.commands.push(Command::Start { generation, encoder, display });
                } else {
                    let failures = join(&plan.failures, "; ");
                    self.last_failure = Some(CaptureError::AllEncodersFailed(failures).message());
                    self.starting = None;
                }
            },
        }
    }

    /// Starts capture with the preferred encoder and falls back through the
    /// remaining registered encoders when one refuses to start. An audio
    /// source that fails is dropped and the start is retried without it.
    /// Both cases are reported through the status notice. The work happens
    /// on the backend's thread; this only sets the plan in motion, and a
    /// failure surfaces in the status once every step is done.
    pub(crate) fn start_capture(&mut self, setup: &Setup)
        requires
            old(self).generation < u64::MAX,
        ensures
            final(self)@ == old(self)@.started(*setup),
            final(self).generation == old(self).generation + 1,
    {
        reveal(super::model::DriveView::started);
        let (plan, notice) = setup.start_plan();
        self.last_failure = None;
        self.notice = notice;
        self.commands.push(Command::ClearBuffer);
        self.commands.push(Command::ClearAudioTracks);
        self.starting = Some(plan);
        self.launch_attempt();
    }

    pub(crate) fn restart(&mut self, setup: &Setup, wanted: bool)
        requires
            old(self).generation < u64::MAX,
        ensures
            final(self)@ == old(self)@.restarted(*setup, wanted),
            final(self).generation <= old(self).generation + 1,
    {
        reveal(super::model::DriveView::restarted);
        self.stop_backend();
        self.push_command(Command::ClearBuffer);
        if wanted {
            self.start_capture(setup);
        }
    }

    pub(crate) fn go_on_without(&mut self, setup: &Setup, wanted: bool, key: &String)
        requires
            old(self).generation < u64::MAX,
        ensures
            final(self)@ == old(self)@.going_on_without(*setup, wanted, key@),
    {
        reveal(super::model::DriveView::going_on_without);
        self.drop_audio_source(key);
        self.restart(setup, wanted);
        let name = setup.audio_source_name(key.as_str());
        self.add_notice(
            join3("Audio device ", name.as_str(), " stopped working, capturing without it."),
        );
    }

    pub(crate) fn unhook(&mut self, setup: &Setup, message: &str)
        requires
            old(self).generation < u64::MAX,
        ensures
            final(self)@ == old(self)@.unhooked(*setup, message@),
    {
        reveal(super::model::DriveView::unhooked);
        self.game_capture_unavailable = true;
        self.restart(setup, true);
        self.add_notice(join3("Game capture failed (", message, "), using display capture."));
    }

    pub(crate) fn recover(&mut self, setup: &Setup, allowed: bool, message: &str)
        requires
            old(self).generation < u64::MAX,
        ensures
            final(self)@ == old(self)@.recovered(*setup, allowed, message@),
    {
        reveal(super::model::DriveView::recovered);
        if allowed {
            self.restart(setup, true);
            self.add_notice(join3("Capture restarted after an error (", message, ")."));
        } else {
            self.last_failure = Some(join2("the capture pipeline failed: ", message));
        }
    }

    /// Takes the next step of the plan after an attempt has failed.
    pub(crate) fn attempt_failed(&mut self, setup: &Setup, error: &CaptureError)
        requires
            old(self).generation < u64::MAX,
            old(self).starting matches Some(plan) && plan.index < plan.candidates.len(),
        ensures
            final(self)@ == old(self)@.attempt_failed(
                old(self)@.starting->0,
                *error,
                setup.config.audio.sources@,
            ),
            final(self).generation <= old(self).generation + 1,
    {
        reveal(super::model::DriveView::attempt_failed);
        match error {
            CaptureError::AudioSource { key, .. } => {
                self.drop_audio_source(key);
                let name = setup.audio_source_name(key.as_str());
                self.add_notice(
                    join3(
                        "Audio device ",
                        name.as_str(),
                        " is unavailable, capturing without it.",
                    ),
                );
                self.launch_attempt();
            },
            CaptureError::EncoderStart { reason, .. } => {
                if let Some(plan) = &mut self.starting {
                    let ghost failures = crate::text::views(plan.failures@);
                    let mut failure = join3(
                        plan.candidates[plan.index].kind.label(),
                        " (",
                        reason.as_str(),
                    );
                    failure.append(")");
                    plan.failures.push(failure);
                    plan.index = plan.index + 1;
                    assert(crate::text::views(plan.failures@) =~= failures.push(failure@));
                }
                self.launch_attempt();
            },
            CaptureError::GameCapture(message) => {
                if self.game_capture_unavailable {
                    self.starting = None;
                    self.last_failure = Some(error.message());
                } else {
                    // Game capture could not attach: fall back to display
                    // capture for this session and retry the same encoder
                    // without the hook.
                    self.game_capture_unavailable = true;
                    self.add_notice(
                        join3(
                            "Game capture failed (",
                            message.as_str(),
                            "), using display capture.",
                        ),
                    );
                    self.launch_attempt();
                }
            },
            CaptureError::Cancelled => {
                self.starting = None;
            },
            _ => {
                self.starting = None;
                self.last_failure = Some(error.message());
            },
        }
    }
}

} // verus!
