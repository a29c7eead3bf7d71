//! In app playback of a clip: whether it plays, which of its audio tracks are
//! heard, and which decoded frames are shown.
use vstd::prelude::*;

use crate::error::CaptureError;
use crate::pipeline::BusMessage;
use crate::text::{comes_before, starts_with};

verus! {

/// The widest picture that is shown.
pub const MAX_FRAME_WIDTH: i32 = 1280;

/// Every track is brought to this format before the mixer, so tracks with
/// different rates or channel counts mix without renegotiation.
pub const MIX_RATE: i32 = 48_000;

/// The number of channels of the mix.
pub const MIX_CHANNELS: i32 = 2;

/// Static facts about a media file. The duration is in nanoseconds.
#[derive(Debug, Clone, Copy, PartialEq, Eq, Structural)]
pub struct MediaInfo {
    pub duration: u64,
    pub width: u32,
    pub height: u32,
    pub has_audio: bool,
    /// How many audio tracks the file has.
    pub audio_tracks: usize,
}

/// A decoded video frame ready for display, tightly packed RGBA.
#[derive(Debug)]
pub struct VideoFrame {
    pub width: u32,
    pub height: u32,
    pub rgba: Vec<u8>,
}

impl VideoFrame {
    /// Four bytes for every pixel.
    pub open spec fn wf(self) -> bool {
        self.rgba.len() == self.width * self.height * 4
    }
}

/// Reads files back: metadata for the library and thumbnails for the
/// gallery.
pub trait MediaTools {
    fn probe(&self, path: &str) -> (r: Result<MediaInfo, CaptureError>);

    /// Writes a PNG of the frame at `at` nanoseconds, scaled down to
    /// `max_width`.
    fn thumbnail(&self, path: &str, output: &str, at: u64, max_width: u32) -> (r: Result<
        (),
        CaptureError,
    >);
}

/// Receives playback output.
pub trait PlayerSink {
    fn on_frame(&self, frame: VideoFrame);

    fn on_finished(&self);

    fn on_error(&self, message: String);
}

/// An audio track of the clip: the name of the decoder pad, and the number of
/// the mixer pad that it feeds.
#[derive(Debug)]
pub struct MixTrack {
    pub name: String,
    pub pad: u32,
}

/// The audio side of the playback.
#[derive(Debug)]
pub struct AudioMix {
    /// In pad name order, which is the track order of the file and of the
    /// editor.
    pub tracks: Vec<MixTrack>,
    /// Tracks switched off by the editor, by index.
    pub muted: Vec<bool>,
}

/// Whether tracks stand in the order of their names.
pub open spec fn in_name_order(tracks: Seq<MixTrack>) -> bool {
    forall|i: int, j: int|
        0 <= i < j < tracks.len() ==> !crate::text::lex_less(
            (#[trigger] tracks[j]).name@,
            (#[trigger] tracks[i]).name@,
        )
}

impl AudioMix {
    /// The tracks stand in the order of their names.
    pub open spec fn wf(self) -> bool {
        in_name_order(self.tracks@)
    }

    /// Whether the track at a place is switched off.
    pub open spec fn is_muted(self, index: int) -> bool {
        0 <= index < self.muted.len() && self.muted@[index]
    }

    /// A mix without tracks.
    pub fn new() -> (r: Self)
        ensures
            r.wf(),
            r.tracks.len() == 0,
            r.muted.len() == 0,
    {
        AudioMix { tracks: Vec::new(), muted: Vec::new() }
    }

    /// Adds a track at its place: behind those whose names do not come after
    /// its own.
    pub fn attach_track(&mut self, name: String, pad: u32)
        requires
            old(self).wf(),
        ensures
            final(self).wf(),
            final(self).muted == old(self).muted,
            exists|k: int|
                0 <= k <= old(self).tracks.len() && final(self).tracks@ == #[trigger] old(
                    self,
                ).tracks@.insert(k, MixTrack { name, pad }) && (forall|i: int|
                    0 <= i < k ==> !crate::text::lex_less(
                        name@,
                        (#[trigger] old(self).tracks@[i]).name@,
                    )) && (forall|i: int|
                    k <= i < old(self).tracks.len() ==> crate::text::lex_less(
                        name@,
                        (#[trigger] old(self).tracks@[i]).name@,
                    )),
    {
        let ghost before = self.tracks@;
        let mut k: usize = self.tracks.len();
        while k > 0 && comes_before(name.as_str(), self.tracks[k - 1].name.as_str())
            invariant
                k <= self.tracks.len(),
                self.tracks@ == before,
                forall|i: int|
                    k <= i < before.len() ==> crate::text::lex_less(
                        name@,
                        (#[trigger] before[i]).name@,
                    ),
            decreases k,
        {
            k = k - 1;
        }
        let track = MixTrack { name, pad };
        proof {
            assert forall|i: int| 0 <= i < k implies !crate::text::lex_less(
                name@,
                (#[trigger] before[i]).name@,
            ) by {
                let last = before[k - 1].name@;
                if crate::text::lex_less(name@, before[i].name@) {
                    if i < k - 1 {
                        assert(!crate::text::lex_less(before[k - 1].name@, before[i].name@));
                        crate::text::lex_is_total(before[i].name@, last);
                        if crate::text::lex_less(before[i].name@, last) {
                            crate::text::lex_is_transitive(name@, before[i].name@, last);
                        }
                    }
                }
            }
            let after = before.insert(k as int, track);
            assert forall|i: int, j: int| 0 <= i < j < after.len() implies !crate::text::lex_less(
                (#[trigger] after[j]).name@,
                (#[trigger] after[i]).name@,
            ) by {
                let a = if i < k { i } else { i - 1 };
                let b = if j < k { j } else { j - 1 };
                if i == k {
                    assert(crate::text::lex_less(name@, before[b].name@));
                    crate::text::lex_is_total(name@, before[b].name@);
                } else if j == k {
                    assert(!crate::text::lex_less(name@, before[a].name@));
                } else {
                    assert(!crate::text::lex_less(before[b].name@, before[a].name@));
                }
            }
        }
        self.tracks.insert(k, track);
    }

    /// Which mixer pads are silent: each pad, and whether its track is
    /// switched off.
    pub fn mutes(&self) -> (r: Vec<(u32, bool)>)
        ensures
            r.len() == self.tracks.len(),
            forall|i: int|
                0 <= i < r.len() ==> #[trigger] r@[i] == (
                    self.tracks@[i].pad,
                    self.is_muted(i),
                ),
    {
        let mut out: Vec<(u32, bool)> = Vec::new();
        let mut i: usize = 0;
        while i < self.tracks.len()
            invariant
                i <= self.tracks.len(),
                out.len() == i,
                forall|k: int|
                    0 <= k < i ==> #[trigger] out@[k] == (self.tracks@[k].pad, self.is_muted(k)),
            decreases self.tracks.len() - i,
        {
            let muted = i < self.muted.len() && self.muted[i];
            out.push((self.tracks[i].pad, muted));
            i = i + 1;
        }
        out
    }

    /// Switches a track on or off. The other tracks stay as they are.
    pub fn set_track_enabled(&mut self, index: usize, enabled: bool)
        requires
            index < usize::MAX,
        ensures
            final(self).tracks == old(self).tracks,
            final(self).is_muted(index as int) == !enabled,
            forall|i: int| i != index ==> final(self).is_muted(i) == old(self).is_muted(i),
    {
        let ghost before = self.muted@;
        while self.muted.len() <= index
            invariant
                index < usize::MAX,
                self.tracks == old(self).tracks,
                before == old(self).muted@,
                before.len() <= self.muted.len(),
                self.muted.len() <= index + 1 || self.muted.len() == before.len(),
                forall|i: int| 0 <= i < before.len() ==> self.muted@[i] == before[i],
                forall|i: int| before.len() <= i < self.muted.len() ==> !self.muted@[i],
            decreases index + 1 - self.muted.len(),
        {
            self.muted.push(false);
        }
        self.muted[index] = !enabled;
    }
}

/// The elements that playback needs.
pub open spec fn player_elements() -> Seq<Seq<char>> {
    seq!["uridecodebin"@, "audiomixer"@, "autoaudiosink"@, "volume"@]
}

/// Whether clips can be played. A player fails early when an element is
/// missing, so the application can say so instead of failing per clip.
pub fn check_player(registered: &Vec<String>) -> (r: Result<(), CaptureError>)
    ensures
        match r {
            Ok(_) => forall|i: int|
                0 <= i < player_elements().len() ==> crate::text::views(registered@).contains(
                    #[trigger] player_elements()[i],
                ),
            Err(CaptureError::MissingElement(name)) => {
                &&& !crate::text::views(registered@).contains(name@)
                &&& exists|i: int|
                    0 <= i < player_elements().len() && name@ == #[trigger] player_elements()[i]
                        && forall|k: int|
                        0 <= k < i ==> crate::text::views(registered@).contains(
                            #[trigger] player_elements()[k],
                        )
            },
            Err(_) => false,
        },
{
    let mut needed: Vec<&'static str> = Vec::new();
    needed.push("uridecodebin");
    needed.push("audiomixer");
    needed.push("autoaudiosink");
    needed.push("volume");
    let mut i: usize = 0;
    while i < needed.len()
        invariant
            i <= needed.len() == 4,
            player_elements().len() == 4,
            forall|k: int| 0 <= k < 4 ==> (#[trigger] needed@[k])@ == player_elements()[k],
            forall|k: int|
                0 <= k < i ==> crate::text::views(registered@).contains(
                    #[trigger] player_elements()[k],
                ),
        decreases needed.len() - i,
    {
        if !crate::text::list_contains(registered, needed[i]) {
            assert(needed@[i as int]@ == player_elements()[i as int]);
            return Err(CaptureError::MissingElement(needed[i].to_owned()));
        }
        assert(needed@[i as int]@ == player_elements()[i as int]);
        i = i + 1;
    }
    Ok(())
}

/// What is done with a track of the file.
#[derive(Debug, Clone, Copy, PartialEq, Eq, Structural)]
pub enum TrackRoute {
    /// Link it to the picture.
    Picture,
    /// Link it into the mix.
    Mix,
    /// Leave it alone.
    Ignore,
}

/// What is done with a track of the file, by its media type: the first video
/// track is the picture, every audio track is mixed.
pub fn route_track(kind: &str, picture_linked: bool) -> (r: TrackRoute)
    ensures
        r == if crate::text::starts_in(kind@, "video/"@) {
            if picture_linked {
                TrackRoute::Ignore
            } else {
                TrackRoute::Picture
            }
        } else if crate::text::starts_in(kind@, "audio/"@) {
            TrackRoute::Mix
        } else {
            TrackRoute::Ignore
        },
{
    if starts_with(kind, "video/") {
        if picture_linked {
            TrackRoute::Ignore
        } else {
            TrackRoute::Picture
        }
    } else if starts_with(kind, "audio/") {
        TrackRoute::Mix
    } else {
        TrackRoute::Ignore
    }
}

/// What the bus of the playback says.
#[derive(Debug)]
pub enum PlaybackNews {
    /// Nothing that anybody has to know.
    Nothing,
    /// The clip is at its end. The watch goes on: a seek plays it again.
    Finished,
    /// Playback failed for this reason, and the watch ends.
    Failed(String),
}

/// What a message on the bus of the playback means.
pub fn playback_news(message: BusMessage) -> (r: PlaybackNews)
    ensures
        match message {
            BusMessage::Error { message, .. } => r == PlaybackNews::Failed(message),
            BusMessage::Eos => r is Finished,
            _ => r is Nothing,
        },
{
    match message {
        BusMessage::Error { message, .. } => PlaybackNews::Failed(message),
        BusMessage::Eos => PlaybackNews::Finished,
        _ => PlaybackNews::Nothing,
    }
}

/// The size of a decoded frame and the number of its bytes, when the buffer
/// holds them all.
pub fn frame_size(width: i32, height: i32, len: usize) -> (r: Option<(u32, u32, usize)>)
    requires
        crate::pipeline::floored(Some(width), 0) * crate::pipeline::floored(Some(height), 0) * 4
            <= u32::MAX,
    ensures
        ({
            let w = crate::pipeline::floored(Some(width), 0);
            let h = crate::pipeline::floored(Some(height), 0);
            match r {
                Some((rw, rh, bytes)) => rw == w && rh == h && bytes == w * h * 4 && len >= bytes,
                None => len < w * h * 4,
            }
        }),
{
    let w: u32 = if width < 0 {
        0
    } else {
        width as u32
    };
    let h: u32 = if height < 0 {
        0
    } else {
        height as u32
    };
    assert(0 <= w * h) by (nonlinear_arith)
        requires
            0 <= w,
            0 <= h,
    ;
    let bytes: usize = (w * h * 4) as usize;
    if len < bytes {
        None
    } else {
        Some((w, h, bytes))
    }
}

/// A player: whether a file is open and plays. The volume is kept across
/// files, as the bit pattern of the level.
#[derive(Debug, Clone, Copy, PartialEq, Eq, Structural)]
pub struct PlayerState {
    pub loaded: bool,
    pub playing: bool,
}

impl PlayerState {
    /// Only an open file plays.
    pub open spec fn wf(self) -> bool {
        self.playing ==> self.loaded
    }

    /// A player without a file.
    pub fn new() -> (r: Self)
        ensures
            r == (PlayerState { loaded: false, playing: false }),
    {
        PlayerState { loaded: false, playing: false }
    }

    /// Takes note that a file was opened, or could not be. Whatever was open
    /// before is closed.
    pub fn load(&mut self, opened: bool) -> (r: Result<(), CaptureError>)
        ensures
            *final(self) == (PlayerState { loaded: opened, playing: false }),
            match r {
                Ok(()) => opened,
                Err(CaptureError::Playback(text)) => !opened && text@
                    == "could not open the file"@,
                Err(_) => false,
            },
    {
        self.playing = false;
        self.loaded = opened;
        if opened {
            Ok(())
        } else {
            Err(CaptureError::Playback("could not open the file".to_owned()))
        }
    }

    /// Takes note of how setting the pipeline to playing went.
    pub fn play(&mut self, accepted: bool)
        requires
            old(self).wf(),
        ensures
            final(self).wf(),
            final(self).loaded == old(self).loaded,
            final(self).playing == (old(self).playing || (old(self).loaded && accepted)),
    {
        if self.loaded && accepted {
            self.playing = true;
        }
    }

    /// Takes note of how pausing the pipeline went.
    pub fn pause(&mut self, accepted: bool)
        requires
            old(self).wf(),
        ensures
            final(self).wf(),
            final(self).loaded == old(self).loaded,
            final(self).playing == (old(self).playing && !(old(self).loaded && accepted)),
    {
        if self.loaded && accepted {
            self.playing = false;
        }
    }

    /// Closes the file.
    pub fn stop(&mut self)
        ensures
            *final(self) == (PlayerState { loaded: false, playing: false }),
    {
        self.loaded = false;
        self.playing = false;
    }
}

/// A track is heard unless it was switched off.
pub proof fn only_tracks_that_were_switched_off_are_muted(mix: AudioMix, index: int)
    ensures
        mix.is_muted(index) ==> 0 <= index < mix.muted.len() && mix.muted@[index],
        index < 0 || index >= mix.muted.len() ==> !mix.is_muted(index),
        0 <= index < mix.muted.len() ==> mix.is_muted(index) == mix.muted@[index],
{
}

} // verus!
