//! Drives the player: what is asked of it, and what the page shows of it.
//! Times are in nanoseconds.
use vstd::prelude::*;

use crate::library::format_duration;
use crate::text::join2;

verus! {

/// What is asked of the player.
#[derive(Debug, Clone, Copy, PartialEq, Eq, Structural)]
pub enum Request {
    Seek(u64),
    Play,
    Pause,
}

/// What the player page shows of the playback.
#[derive(Debug)]
pub struct Progress {
    pub playing: bool,
    pub position: u64,
    pub position_text: String,
    pub duration: u64,
    pub duration_text: String,
    pub message: String,
}

/// What the player says about itself.
#[derive(Debug, Clone, Copy, PartialEq, Eq, Structural)]
pub struct PlayerView {
    pub playing: bool,
    pub position: Option<u64>,
    pub duration: Option<u64>,
}

/// The clip that is played, and what the player reported.
#[derive(Debug)]
pub struct PlayerController {
    pub current: Option<String>,
    /// Pause automatically when playback reaches this point.
    pub stop_at: Option<u64>,
    /// A frame is on its way to the page; newer frames are dropped until it
    /// lands so playback never queues up behind the renderer.
    pub frame_pending: bool,
    pub finished: bool,
    pub error: Option<String>,
}

/// The text of a time.
pub open spec fn time_text(t: u64) -> Seq<char> {
    crate::library::duration_text((t / 1_000_000_000) as nat)
}

impl PlayerController {
    /// Nothing is played.
    pub fn new() -> (r: Self)
        ensures
            r == (PlayerController {
                current: None,
                stop_at: None,
                frame_pending: false,
                finished: false,
                error: None,
            }),
    {
        PlayerController {
            current: None,
            stop_at: None,
            frame_pending: false,
            finished: false,
            error: None,
        }
    }

    /// The clip that is played.
    pub fn current(&self) -> (r: Option<&str>)
        ensures
            match r {
                Some(id) => self.current is Some && id@ == self.current->0@,
                None => self.current is None,
            },
    {
        match &self.current {
            Some(id) => Some(id.as_str()),
            None => None,
        }
    }

    /// A frame came. Returns whether it is shown.
    pub fn on_frame(&mut self) -> (r: bool)
        ensures
            r == !old(self).frame_pending,
            *final(self) == (PlayerController { frame_pending: true, ..*old(self) }),
    {
        let free = !self.frame_pending;
        self.frame_pending = true;
        free
    }

    /// The frame is on the page, or could not get there.
    pub fn frame_landed(&mut self)
        ensures
            *final(self) == (PlayerController { frame_pending: false, ..*old(self) }),
    {
        self.frame_pending = false;
    }

    /// Playback reached the end.
    pub fn on_finished(&mut self)
        ensures
            *final(self) == (PlayerController { finished: true, ..*old(self) }),
    {
        self.finished = true;
    }

    /// Playback failed.
    pub fn on_error(&mut self, message: String)
        ensures
            *final(self) == (PlayerController { error: Some(message), ..*old(self) }),
    {
        self.error = Some(message);
    }

    /// Plays `from` up to `until`, then pauses.
    pub fn preview(&mut self, from: u64, until: u64, page: &mut Progress) -> (r: Vec<Request>)
        ensures
            if old(self).current is None {
                &&& r.len() == 0
                &&& *final(self) == *old(self)
                &&& *final(page) == *old(page)
            } else {
                &&& r@ == seq![Request::Seek(from), Request::Play]
                &&& *final(self) == (PlayerController {
                    finished: false,
                    stop_at: Some(until),
                    ..*old(self)
                })
                &&& *final(page) == (Progress { playing: true, ..*old(page) })
            },
    {
        if self.current.is_none() {
            return Vec::new();
        }
        self.finished = false;
        self.stop_at = Some(until);
        page.playing = true;
        vec![Request::Seek(from), Request::Play]
    }

    /// Takes over a clip that is opened. `loaded` is how loading its file
    /// went. Returns what is asked of the player then.
    pub fn open(&mut self, id: &str, loaded: Result<(), String>, page: &mut Progress) -> (r: Vec<
        Request,
    >)
        ensures
            final(self).stop_at == old(self).stop_at,
            final(self).frame_pending == old(self).frame_pending,
            !final(self).finished,
            final(self).error is None,
            final(page).position == 0,
            final(page).position_text == old(page).position_text,
            final(page).duration == old(page).duration,
            final(page).duration_text == old(page).duration_text,
            final(page).playing == (loaded is Ok),
            match loaded {
                Ok(_) => {
                    &&& r@ == seq![Request::Play]
                    &&& final(self).current is Some && final(self).current->0@ == id@
                    &&& final(page).message@ == ""@
                },
                Err(reason) => {
                    &&& r.len() == 0
                    &&& final(self).current is None
                    &&& final(page).message@ == "Could not play this clip: "@ + reason@
                },
            },
    {
        self.finished = false;
        self.error = None;
        page.position = 0;
        page.playing = false;
        match loaded {
            Ok(_) => {
                self.current = Some(id.to_owned());
                page.playing = true;
                page.message = "".to_owned();
                vec![Request::Play]
            },
            Err(reason) => {
                self.current = None;
                page.message = join2("Could not play this clip: ", reason.as_str());
                Vec::new()
            },
        }
    }

    /// Plays or pauses; from the start again when playback is at its end.
    /// The page then shows whether the player plays.
    pub fn toggle(&mut self, playing: bool) -> (r: Vec<Request>)
        ensures
            if old(self).current is None {
                r.len() == 0 && *final(self) == *old(self)
            } else {
                &&& *final(self) == (PlayerController {
                    stop_at: None,
                    finished: false,
                    ..*old(self)
                })
                &&& r@ == if old(self).finished {
                    seq![Request::Seek(0), Request::Play]
                } else if playing {
                    seq![Request::Pause]
                } else {
                    seq![Request::Play]
                }
            },
    {
        if self.current.is_none() {
            return Vec::new();
        }
        self.stop_at = None;
        let again = self.finished;
        self.finished = false;
        if again {
            vec![Request::Seek(0), Request::Play]
        } else if playing {
            vec![Request::Pause]
        } else {
            vec![Request::Play]
        }
    }

    /// Goes to another point of the clip.
    pub fn seek(&mut self, position: u64) -> (r: Option<Request>)
        ensures
            if old(self).current is None {
                r is None && *final(self) == *old(self)
            } else {
                &&& r == Some(Request::Seek(position))
                &&& *final(self) == (PlayerController {
                    stop_at: None,
                    finished: false,
                    ..*old(self)
                })
            },
    {
        if self.current.is_none() {
            return None;
        }
        self.stop_at = None;
        self.finished = false;
        Some(Request::Seek(position))
    }

    /// Nothing is played any more; the player itself is stopped too.
    pub fn stop(&mut self, page: &mut Progress)
        ensures
            *final(self) == (PlayerController { current: None, ..*old(self) }),
            *final(page) == (Progress { playing: false, ..*old(page) }),
    {
        self.current = None;
        page.playing = false;
    }

    /// Whether playback reached the point at which it pauses.
    pub open spec fn pauses_at(self, view: PlayerView) -> bool {
        self.stop_at is Some && view.position is Some && view.position->0 >= self.stop_at->0
            && view.playing
    }

    /// Refreshes the progress on the page.
    pub fn tick(&mut self, view: PlayerView, page: &mut Progress) -> (r: Option<Request>)
        ensures
            if old(self).current is None {
                r is None && *final(self) == *old(self) && *final(page) == *old(page)
            } else {
                let stops = !old(self).finished && old(self).pauses_at(view);
                let duration = match view.duration {
                    Some(duration) => duration,
                    None => old(page).duration,
                };
                &&& *final(self) == (PlayerController {
                    stop_at: if stops {
                        None
                    } else {
                        old(self).stop_at
                    },
                    error: None,
                    ..*old(self)
                })
                &&& r == if old(self).finished || stops {
                    Some(Request::Pause)
                } else {
                    None
                }
                &&& final(page).duration == duration
                &&& match view.duration {
                    Some(duration) => final(page).duration_text@ == time_text(duration),
                    None => final(page).duration_text == old(page).duration_text,
                }
                &&& if old(self).finished {
                    &&& final(page).position == duration
                    &&& final(page).position_text@ == final(page).duration_text@
                } else {
                    match view.position {
                        Some(position) => {
                            &&& final(page).position == position
                            &&& final(page).position_text@ == time_text(position)
                        },
                        None => {
                            &&& final(page).position == old(page).position
                            &&& final(page).position_text == old(page).position_text
                        },
                    }
                }
                &&& final(page).playing == if old(self).finished || old(self).error is Some {
                    false
                } else if view.position is Some {
                    view.playing && !stops
                } else {
                    old(page).playing
                }
                &&& match old(self).error {
                    Some(message) => final(page).message@ == "Playback error: "@ + message@,
                    None => final(page).message == old(page).message,
                }
            },
    {
        if self.current.is_none() {
            return None;
        }
        if let Some(duration) = view.duration {
            page.duration = duration;
            page.duration_text = format_duration(duration / 1_000_000_000);
        }
        let mut request: Option<Request> = None;
        if self.finished {
            request = Some(Request::Pause);
            page.playing = false;
            page.position = page.duration;
            page.position_text = page.duration_text.clone();
        } else if let Some(position) = view.position {
            let mut playing = view.playing;
            if let Some(until) = self.stop_at {
                if position >= until && playing {
                    request = Some(Request::Pause);
                    self.stop_at = None;
                    playing = false;
                }
            }
            page.position = position;
            page.position_text = format_duration(position / 1_000_000_000);
            page.playing = playing;
        }
        if let Some(message) = self.error.take() {
            page.message = join2("Playback error: ", message.as_str());
            page.playing = false;
        }
        request
    }
}

/// A preview pauses once playback is at its end or beyond, and not before.
pub proof fn a_preview_ends_where_it_should(
    player: PlayerController,
    until: u64,
    position: u64,
    duration: Option<u64>,
)
    requires
        player.stop_at == Some(until),
    ensures
        player.pauses_at(PlayerView { playing: true, position: Some(position), duration })
            <==> position >= until,
        !player.pauses_at(PlayerView { playing: false, position: Some(position), duration }),
        !player.pauses_at(PlayerView { playing: true, position: None, duration }),
{
}

/// Without a preview playback is not paused.
pub proof fn playback_goes_on_without_a_preview(player: PlayerController, view: PlayerView)
    requires
        player.stop_at is None,
    ensures
        !player.pauses_at(view),
{
}

} // verus!
