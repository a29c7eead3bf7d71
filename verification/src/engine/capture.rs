//! The settings of one capture: which display or game, and which audio
//! sources on which tracks.
use vstd::prelude::*;

use super::Engine;
use crate::config::{audio_source_key, AudioDeviceKind, DisplaySelection, EncoderInfo};
use crate::text::{list_contains, same};

verus! {

/// An audio source of a capture. `process` is the application to record, or
/// to leave out of the default output.
#[derive(Debug)]
pub struct AudioSourceSettings {
    pub id: String,
    pub kind: AudioDeviceKind,
    pub volume: u32,
    pub muted: bool,
    pub process: u32,
}

impl Clone for AudioSourceSettings {
    fn clone(&self) -> (r: Self)
        ensures
            r == *self,
    {
        AudioSourceSettings {
            id: self.id.clone(),
            kind: self.kind,
            volume: self.volume,
            muted: self.muted,
            process: self.process,
        }
    }
}

/// An audio track of a capture.
#[derive(Debug)]
pub struct AudioTrackSettings {
    pub name: String,
    pub sources: Vec<AudioSourceSettings>,
}

/// What an [`AudioTrackSettings`] says.
#[verifier::ext_equal]
pub struct TrackView {
    pub name: Seq<char>,
    pub sources: Seq<AudioSourceSettings>,
}

impl View for AudioTrackSettings {
    type V = TrackView;

    open spec fn view(&self) -> TrackView {
        TrackView { name: self.name@, sources: self.sources@ }
    }
}

/// Everything the backend needs to know to start capturing.
#[derive(Debug)]
pub struct CaptureSettings {
    pub encoder: EncoderInfo,
    pub display: DisplaySelection,
    pub game_capture_pid: Option<u32>,
    pub fps: u32,
    pub bitrate_kbps: u32,
    pub keyframe_interval: u32,
    pub show_cursor: bool,
    pub stretch: bool,
    pub audio_bitrate_kbps: u32,
    pub audio_tracks: Vec<AudioTrackSettings>,
    pub temp_dir: Option<String>,
}

/// What a list of tracks says.
pub open spec fn track_views(tracks: Seq<AudioTrackSettings>) -> Seq<TrackView> {
    tracks.map_values(|t: AudioTrackSettings| t@)
}

/// Sources that have not failed.
pub open spec fn is_available(unavailable: Set<Seq<char>>) -> spec_fn(AudioSourceSettings) -> bool {
    |s: AudioSourceSettings| !unavailable.contains(crate::config::source_key(s.kind, s.id@))
}

/// Sources that record something: an application has to run.
pub open spec fn is_audible() -> spec_fn(AudioSourceSettings) -> bool {
    |s: AudioSourceSettings| s.kind != AudioDeviceKind::Application || s.process != 0
}

/// The process of an application among the listed ones, zero when it is not
/// listed.
pub open spec fn listed_pid(pids: Seq<(Seq<char>, u32)>, id: Seq<char>) -> u32
    decreases pids.len(),
{
    if pids.len() == 0 {
        0
    } else if pids[0].0 == id {
        pids[0].1
    } else {
        listed_pid(pids.drop_first(), id)
    }
}

/// The first application that runs, or zero.
pub open spec fn first_running(pids: Seq<(Seq<char>, u32)>) -> u32
    decreases pids.len(),
{
    if pids.len() == 0 {
        0
    } else if pids[0].1 != 0 {
        pids[0].1
    } else {
        first_running(pids.drop_first())
    }
}

/// A source with its process: an application records itself, the default
/// output leaves the first running application out.
pub open spec fn with_process(pids: Seq<(Seq<char>, u32)>) -> spec_fn(
    AudioSourceSettings,
) -> AudioSourceSettings {
    |s: AudioSourceSettings|
        AudioSourceSettings {
            process: if s.kind == AudioDeviceKind::Application {
                listed_pid(pids, s.id@)
            } else if s.kind == AudioDeviceKind::Output && s.id@
                == crate::config::default_audio_device_id() {
                first_running(pids)
            } else {
                s.process
            },
            ..s
        }
}

/// The sources of a track that are recorded.
pub open spec fn live_sources(
    sources: Seq<AudioSourceSettings>,
    unavailable: Set<Seq<char>>,
    pids: Seq<(Seq<char>, u32)>,
) -> Seq<AudioSourceSettings> {
    sources.filter(is_available(unavailable)).map_values(with_process(pids)).filter(is_audible())
}

/// A track with the sources that are recorded.
pub open spec fn live_track(
    unavailable: Set<Seq<char>>,
    pids: Seq<(Seq<char>, u32)>,
) -> spec_fn(TrackView) -> TrackView {
    |t: TrackView| TrackView { sources: live_sources(t.sources, unavailable, pids), ..t }
}

/// Tracks with something on them.
pub open spec fn has_sources() -> spec_fn(TrackView) -> bool {
    |t: TrackView| t.sources.len() > 0
}

/// The tracks that are recorded.
pub open spec fn live_tracks(
    tracks: Seq<TrackView>,
    unavailable: Set<Seq<char>>,
    pids: Seq<(Seq<char>, u32)>,
) -> Seq<TrackView> {
    tracks.map_values(live_track(unavailable, pids)).filter(has_sources())
}

fn find_listed(pids: &Vec<(String, u32)>, id: &str) -> (r: u32)
    ensures
        r == listed_pid(super::pid_views(pids@), id@),
{
    let ghost all = super::pid_views(pids@);
    let mut i: usize = 0;
    assert(all.skip(0) =~= all);
    while i < pids.len()
        invariant
            i <= pids.len(),
            all == super::pid_views(pids@),
            listed_pid(all, id@) == listed_pid(all.skip(i as int), id@),
        decreases pids.len() - i,
    {
        assert(all.skip(i as int).drop_first() =~= all.skip(i + 1));
        if same(pids[i].0.as_str(), id) {
            return pids[i].1;
        }
        i = i + 1;
    }
    0
}

fn find_running(pids: &Vec<(String, u32)>) -> (r: u32)
    ensures
        r == first_running(super::pid_views(pids@)),
{
    let ghost all = super::pid_views(pids@);
    let mut i: usize = 0;
    assert(all.skip(0) =~= all);
    while i < pids.len()
        invariant
            i <= pids.len(),
            all == super::pid_views(pids@),
            first_running(all) == first_running(all.skip(i as int)),
        decreases pids.len() - i,
    {
        assert(all.skip(i as int).drop_first() =~= all.skip(i + 1));
        if pids[i].1 != 0 {
            return pids[i].1;
        }
        i = i + 1;
    }
    0
}

/// A mapped and filtered list, one element longer.
proof fn live_succ(
    sources: Seq<AudioSourceSettings>,
    unavailable: Set<Seq<char>>,
    pids: Seq<(Seq<char>, u32)>,
    i: int,
)
    requires
        0 <= i < sources.len(),
    ensures
        ({
            let s = sources[i];
            let t = with_process(pids)(s);
            let before = live_sources(sources.take(i), unavailable, pids);
            live_sources(sources.take(i + 1), unavailable, pids) == if is_available(unavailable)(s)
                && is_audible()(t) {
                before.push(t)
            } else {
                before
            }
        }),
{
    let p = is_available(unavailable);
    let f = with_process(pids);
    crate::lists::filter_take_succ(sources, p, i);
    let kept = sources.take(i).filter(p);
    if p(sources[i]) {
        assert(kept.push(sources[i]).map_values(f) =~= kept.map_values(f).push(f(sources[i])));
        kept.map_values(f).lemma_filter_push(f(sources[i]), is_audible());
    }
}

/// The sources of a track that are recorded.
fn keep_live(
    sources: &Vec<AudioSourceSettings>,
    unavailable: &Vec<String>,
    pids: &Vec<(String, u32)>,
) -> (r: Vec<AudioSourceSettings>)
    ensures
        r@ == live_sources(
            sources@,
            crate::text::views(unavailable@).to_set(),
            super::pid_views(pids@),
        ),
{
    let ghost gone = crate::text::views(unavailable@).to_set();
    let ghost all = super::pid_views(pids@);
    let first_app: u32 = find_running(pids);
    let mut out: Vec<AudioSourceSettings> = Vec::new();
    let mut i: usize = 0;
    proof {
        crate::lists::filter_take_all(sources@, is_available(gone));
        reveal(Seq::filter);
        assert(sources@.take(0).filter(is_available(gone)).map_values(with_process(all))
            =~= Seq::empty());
        assert(live_sources(sources@.take(0), gone, all) =~= Seq::empty());
    }
    while i < sources.len()
        invariant
            i <= sources.len(),
            gone == crate::text::views(unavailable@).to_set(),
            all == super::pid_views(pids@),
            first_app == first_running(all),
            out@ == live_sources(sources@.take(i as int), gone, all),
        decreases sources.len() - i,
    {
        proof {
            live_succ(sources@, gone, all, i as int);
        }
        let source = &sources[i];
        let key = audio_source_key(source.kind, source.id.as_str());
        if !list_contains(unavailable, key.as_str()) {
            let mut kept = source.clone();
            match source.kind {
                AudioDeviceKind::Application => {
                    kept.process = find_listed(pids, source.id.as_str());
                },
                AudioDeviceKind::Output => {
                    if same(source.id.as_str(), "default") {
                        kept.process = first_app;
                    }
                },
                AudioDeviceKind::Input => {},
            }
            assert(kept == with_process(all)(*source));
            if kept.kind != AudioDeviceKind::Application || kept.process != 0 {
                out.push(kept);
            }
        }
        i = i + 1;
    }
    assert(sources@.take(i as int) =~= sources@);
    out
}

impl Engine {
    /// Completes the settings of a capture that the configuration gives with
    /// what the session knows: the game to hook, the audio sources that
    /// failed, and the applications that run.
    pub fn capture_settings(&self, base: CaptureSettings, display: DisplaySelection) -> (r:
        CaptureSettings)
        ensures
            track_views(r.audio_tracks@) == live_tracks(
                track_views(base.audio_tracks@),
                self@.drive.unavailable_audio,
                self.setup.audio_pids(),
            ),
            r == (CaptureSettings {
                display,
                game_capture_pid: self.setup.game_pid(self.drive.game_capture_unavailable),
                audio_tracks: r.audio_tracks,
                ..base
            }),
    {
        let ghost gone = self@.drive.unavailable_audio;
        let ghost all = self.setup.audio_pids();
        let ghost tracks = track_views(base.audio_tracks@).map_values(live_track(gone, all));
        let pids = self.setup.app_pids();
        let mut kept: Vec<AudioTrackSettings> = Vec::new();
        let mut i: usize = 0;
        proof {
            crate::lists::filter_take_all(tracks, has_sources());
        }
        assert(track_views(kept@) =~= tracks.take(0).filter(has_sources()));
        while i < base.audio_tracks.len()
            invariant
                i <= base.audio_tracks.len(),
                gone == crate::text::views(self.drive.unavailable_audio@).to_set(),
                all == super::pid_views(pids@),
                tracks == track_views(base.audio_tracks@).map_values(live_track(gone, all)),
                track_views(kept@) == tracks.take(i as int).filter(has_sources()),
            decreases base.audio_tracks.len() - i,
        {
            proof {
                crate::lists::filter_take_succ(tracks, has_sources(), i as int);
            }
            let track = &base.audio_tracks[i];
            let sources = keep_live(&track.sources, &self.drive.unavailable_audio, &pids);
            assert(tracks[i as int].sources == sources@);
            if sources.len() > 0 {
                let ghost before = track_views(kept@);
                let next = AudioTrackSettings { name: track.name.clone(), sources };
                assert(next@ == tracks[i as int]);
                kept.push(next);
                assert(track_views(kept@) =~= before.push(next@));
            }
            i = i + 1;
        }
        proof {
            crate::lists::filter_take_all(tracks, has_sources());
        }
        CaptureSettings {
            encoder: base.encoder,
            display,
            game_capture_pid: self.setup.game_capture_pid(self.drive.game_capture_unavailable),
            fps: base.fps,
            bitrate_kbps: base.bitrate_kbps,
            keyframe_interval: base.keyframe_interval,
            show_cursor: base.show_cursor,
            stretch: base.stretch,
            audio_bitrate_kbps: base.audio_bitrate_kbps,
            audio_tracks: kept,
            temp_dir: base.temp_dir,
        }
    }
}

} // verus!
