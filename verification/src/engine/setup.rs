//! What the settings, the active game and the machine say about a capture.
use vstd::prelude::*;

use super::model::{Command, Setup, StartPlan};
use crate::config::{audio_source_key, position_of_monitor, AudioDeviceKind, CaptureMethod,
    DisplaySelection, EncoderInfo, GameProfile, RunningProcess};
use crate::text::{join3, same, to_lowercase, trim};

verus! {

fn find_pid(processes: &Vec<RunningProcess>, exe: &str) -> (r: u32)
    ensures
        r == super::model::pid_of(processes@, exe@),
{
    let mut i: usize = 0;
    assert(processes@.skip(0) =~= processes@);
    while i < processes.len()
        invariant
            i <= processes.len(),
            super::model::pid_of(processes@, exe@) == super::model::pid_of(
                processes@.skip(i as int),
                exe@,
            ),
        decreases processes.len() - i,
    {
        assert(processes@.skip(i as int).drop_first() =~= processes@.skip(i + 1));
        if same(processes[i].exe.as_str(), exe) {
            return processes[i].pid;
        }
        i = i + 1;
    }
    0
}

impl GameProfile {
    /// The folder that the files of the game go to: the given one, or the folder
    /// below it that the game asks for.
    pub fn folder_below(&self, base: &str) -> (r: String)
        ensures
            r@ == match super::model::wanted_subfolder(*self) {
                Some(sub) => crate::paths::below(base@, sub),
                None => base@,
            },
    {
        match &self.subfolder {
            Some(sub) => {
                let sub = trim(sub.as_str());
                if sub.as_str().unicode_len() == 0 {
                    base.to_owned()
                } else {
                    crate::paths::join_path(base, sub.as_str())
                }
            },
            None => base.to_owned(),
        }
    }
}

impl Setup {
    pub(crate) fn profile(&self) -> (r: Option<&GameProfile>)
        ensures
            match r {
                Some(p) => self.game_profile() == Some(*p),
                None => self.game_profile() is None,
            },
    {
        match &self.active_game {
            Some(game) => match &game.profile {
                Some(profile) => Some(profile),
                None => None,
            },
            None => None,
        }
    }

    /// The name of the active game, empty without one.
    pub fn game_name(&self) -> (r: String)
        ensures
            r@ == self.game(),
    {
        match &self.active_game {
            Some(game) => game.name.clone(),
            None => String::new(),
        }
    }

    /// Replay length in seconds with the active game's override applied.
    pub fn effective_replay_length(&self) -> (r: u32)
        ensures
            r == self.replay_seconds(),
    {
        match self.profile() {
            Some(GameProfile { replay_length_seconds: Some(seconds), .. }) => *seconds,
            _ => self.config.replay.length_seconds,
        }
    }

    /// The display to capture with the active game's override applied.
    pub fn effective_display(&self) -> (r: DisplaySelection)
        ensures
            r == self.display(),
    {
        match self.profile() {
            Some(GameProfile { display: Some(display), .. }) => display.clone(),
            _ => self.config.capture.display.clone(),
        }
    }

    /// The capture method for the active game, its per game override taking
    /// precedence over the global default.
    pub fn effective_capture_method(&self) -> (r: CaptureMethod)
        ensures
            r == self.method(),
    {
        match self.profile() {
            Some(GameProfile { capture_method: Some(method), .. }) => *method,
            _ => self.config.capture.method,
        }
    }

    /// The process id to hook, when game capture is chosen and possible.
    /// `None` selects display capture (no active game, no hooks, or a prior
    /// failure this session).
    pub fn game_capture_pid(&self, unavailable: bool) -> (r: Option<u32>)
        ensures
            r == self.game_pid(unavailable),
    {
        if unavailable || self.effective_capture_method() != CaptureMethod::Game
            || !self.game_capture {
            return None;
        }
        match &self.active_game {
            Some(game) => Some(game.pid),
            None => None,
        }
    }

    /// The folder that files go to: the given one, or the folder below it that
    /// the active game asks for.
    pub fn output_dir(&self, base: &str) -> (r: String)
        ensures
            r@ == match self.subfolder() {
                Some(sub) => crate::paths::below(base@, sub),
                None => base@,
            },
    {
        match self.profile() {
            Some(profile) => profile.folder_below(base),
            None => base.to_owned(),
        }
    }

    /// Process ids of the enabled application audio sources, zero when the
    /// application is not running.
    pub fn app_pids(&self) -> (r: Vec<(String, u32)>)
        ensures
            super::pid_views(r@) == self.audio_pids(),
    {
        let ghost sources = self.config.audio.sources@;
        let ghost apps = sources.filter(super::model::is_enabled_app());
        let ghost with_pid = super::model::with_pid(self.processes@);
        let mut out: Vec<(String, u32)> = Vec::new();
        if !self.config.audio.enabled {
            assert(super::pid_views(out@) =~= self.audio_pids());
            return out;
        }
        let mut i: usize = 0;
        proof {
            crate::lists::filter_take_all(sources, super::model::is_enabled_app());
        }
        assert(super::pid_views(out@) =~= sources.take(0).filter(
            super::model::is_enabled_app(),
        ).map_values(with_pid));
        while i < self.config.audio.sources.len()
            invariant
                i <= sources.len(),
                sources == self.config.audio.sources@,
                with_pid == super::model::with_pid(self.processes@),
                super::pid_views(out@) == sources.take(i as int).filter(
                    super::model::is_enabled_app(),
                ).map_values(with_pid),
            decreases sources.len() - i,
        {
            let source = &self.config.audio.sources[i];
            proof {
                crate::lists::filter_take_succ(
                    sources,
                    super::model::is_enabled_app(),
                    i as int,
                );
            }
            if source.enabled && source.kind == AudioDeviceKind::Application {
                let exe = to_lowercase(source.id.as_str());
                let pid: u32 = find_pid(&self.processes, exe.as_str());
                let ghost before = out@;
                out.push((source.id.clone(), pid));
                assert(super::pid_views(out@) =~= super::pid_views(before).push(with_pid(*source)));
                assert(super::pid_views(out@) =~= sources.take(i + 1).filter(
                    super::model::is_enabled_app(),
                ).map_values(with_pid));
            }
            i = i + 1;
        }
        proof {
            crate::lists::filter_take_all(sources, super::model::is_enabled_app());
            if apps.len() == 0 {
                assert(super::pid_views(out@) =~= Seq::empty());
            }
        }
        out
    }

    /// The name of the audio source with this key.
    pub(crate) fn audio_source_name(&self, key: &str) -> (r: String)
        ensures
            r@ == super::model::source_name(self.config.audio.sources@, key@),
    {
        let ghost sources = self.config.audio.sources@;
        let mut i: usize = 0;
        assert(sources.skip(0) =~= sources);
        while i < self.config.audio.sources.len()
            invariant
                i <= sources.len(),
                sources == self.config.audio.sources@,
                super::model::source_name(sources, key@)
                    == super::model::source_name(sources.skip(i as int), key@),
            decreases sources.len() - i,
        {
            let source = &self.config.audio.sources[i];
            assert(sources.skip(i as int).drop_first() =~= sources.skip(i + 1));
            if same(audio_source_key(source.kind, source.id.as_str()).as_str(), key) {
                return source.name.clone();
            }
            i = i + 1;
        }
        key.to_owned()
    }

    pub(crate) fn candidates(&self) -> (r: Vec<EncoderInfo>)
        ensures
            r@ == super::model::candidates_of(self.preferred, self.encoders@),
    {
        let ghost others = super::model::differs_from(self.preferred);
        let mut out: Vec<EncoderInfo> = Vec::new();
        out.push(self.preferred.clone());
        let mut i: usize = 0;
        proof {
            crate::lists::filter_take_all(self.encoders@, others);
        }
        assert(out@ =~= seq![self.preferred] + self.encoders@.take(0).filter(others));
        while i < self.encoders.len()
            invariant
                i <= self.encoders.len(),
                others == super::model::differs_from(self.preferred),
                out@ == seq![self.preferred] + self.encoders@.take(i as int).filter(others),
            decreases self.encoders.len() - i,
        {
            proof {
                crate::lists::filter_take_succ(self.encoders@, others, i as int);
            }
            if !self.encoders[i].same(&self.preferred) {
                out.push(self.encoders[i].clone());
                assert(out@ =~= seq![self.preferred] + self.encoders@.take(i + 1).filter(others));
            }
            i = i + 1;
        }
        proof {
            crate::lists::filter_take_all(self.encoders@, others);
        }
        out
    }

    /// The replay limits in force.
    pub(crate) fn replay_limits(&self) -> (r: Command)
        ensures
            r == self.limits(),
    {
        Command::SetLimits {
            max_seconds: self.effective_replay_length(),
            memory_cap_mb: self.config.replay.memory_cap_mb,
        }
    }

    /// The plan of a start, and what it says about the display.
    pub(crate) fn start_plan(&self) -> (r: (StartPlan, Option<String>))
        ensures
            r.0@ == self.plan(),
            super::model::text_view(r.1) == self.start_notice(),
    {
        let mut display = self.effective_display();
        let mut notice: Option<String> = None;
        if let DisplaySelection::Monitor(id) = &display {
            if position_of_monitor(self.monitors.as_slice(), id.as_str()).is_none() {
                notice = Some(
                    join3(
                        "Display ",
                        id.as_str(),
                        " is not connected, capturing the primary display instead.",
                    ),
                );
                display = DisplaySelection::Primary;
            }
        }
        let candidates = self.candidates();
        let plan = StartPlan { candidates, index: 0, display, failures: Vec::new(), generation: 0 };
        assert(plan@.failures =~= Seq::empty());
        (plan, notice)
    }
}

} // verus!
