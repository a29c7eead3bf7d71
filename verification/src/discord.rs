//! Discord Rich Presence: shows "Clipping <game>" in the user's Discord
//! profile while the buffer or a recording runs. A worker talks to the local
//! Discord client; what it does next is decided here.
use vstd::prelude::*;

use crate::config::DiscordConfig;
use crate::text::{join2, same, trim};

verus! {

/// How long a failed attempt is not repeated, in nanoseconds.
pub const RETRY_AFTER: u64 = 15_000_000_000;

/// How long the worker waits for an update, in nanoseconds.
pub const IDLE_TICK: u64 = 5_000_000_000;

/// What the presence should say right now.
#[derive(Debug)]
pub struct PresenceState {
    pub config: DiscordConfig,
    pub game: Option<String>,
    pub buffering: bool,
    pub recording: bool,
}

impl Default for PresenceState {
    fn default() -> (r: Self)
        ensures
            r.is_idle(),
    {
        PresenceState {
            config: DiscordConfig::default(),
            game: None,
            buffering: false,
            recording: false,
        }
    }
}

impl PresenceState {
    /// The client id that is used.
    pub open spec fn client(self) -> Seq<char> {
        crate::text::trimmed(self.config.client_id@)
    }

    /// Whether nothing is set and nothing runs.
    pub open spec fn is_idle(self) -> bool {
        &&& self.config.enabled && self.config.show_game
        &&& self.config.client_id@.len() == 0
        &&& self.game is None
        &&& !self.buffering && !self.recording
    }

    /// Whether anything is to be shown.
    pub open spec fn is_wanted(self) -> bool {
        self.config.enabled && self.client().len() > 0 && (self.buffering || self.recording)
    }

    /// The first line of the presence.
    pub open spec fn first_line(self) -> Seq<char> {
        match self.game {
            Some(game) if self.config.show_game => "Clipping "@ + game@,
            _ => "Clipping"@,
        }
    }

    /// The second line of the presence.
    pub open spec fn second_line(self) -> Seq<char> {
        if self.recording {
            "Recording"@
        } else {
            "Replay buffer on"@
        }
    }

    /// Whether anything is to be shown: the user wants it, there is a client
    /// id, and the buffer or a recording runs.
    pub fn wanted(&self) -> (r: bool)
        ensures
            r == self.is_wanted(),
    {
        self.config.enabled && trim(self.config.client_id.as_str()).as_str().unicode_len() > 0 && (
        self.buffering || self.recording)
    }

    /// The first line: the game, if the user lets it be shown.
    pub fn details(&self) -> (r: String)
        ensures
            r@ == self.first_line(),
    {
        match &self.game {
            Some(game) => if self.config.show_game {
                join2("Clipping ", game.as_str())
            } else {
                "Clipping".to_owned()
            },
            None => "Clipping".to_owned(),
        }
    }

    /// The second line: what runs.
    pub fn status(&self) -> (r: &'static str)
        ensures
            r@ == self.second_line(),
    {
        if self.recording {
            "Recording"
        } else {
            "Replay buffer on"
        }
    }
}

/// The two lines that Discord shows.
#[derive(Debug)]
pub struct Lines {
    pub details: String,
    pub status: String,
}

impl Lines {
    /// Whether these are the lines of a state.
    pub open spec fn are_of(self, state: PresenceState) -> bool {
        self.details@ == state.first_line() && self.status@ == state.second_line()
    }
}

/// What the worker does next.
#[derive(Debug)]
pub enum Next {
    /// Wait for the next update.
    Wait,
    /// Connect to Discord with this client id.
    Connect { client_id: String },
    /// Show these lines, with the time in seconds since 1970 that they count
    /// from.
    Show { lines: Lines, start: i64 },
}

/// What the worker does with the connection that it has, and then.
#[derive(Debug)]
pub struct Round {
    /// Clear what is shown.
    pub clear: bool,
    /// Close the connection.
    pub close: bool,
    pub next: Next,
}

/// The worker's state. Times are in nanoseconds.
#[derive(Debug)]
pub struct Presence {
    pub current: PresenceState,
    /// The client id of the connection.
    pub connection: Option<String>,
    pub shown: Option<Lines>,
    /// Since when the presence is wanted, in seconds since 1970.
    pub since: Option<i64>,
    pub next_attempt: u64,
    pub failed_once: bool,
}

impl Presence {
    /// Whether the lines that are shown are those of the current state.
    pub open spec fn is_up_to_date(self) -> bool {
        self.shown is Some && self.shown->0.are_of(self.current)
    }

    /// What is done next on a connection.
    pub open spec fn shows_next(self, next: Next) -> bool {
        if self.is_up_to_date() {
            next is Wait
        } else {
            match next {
                Next::Show { lines, start } => lines.are_of(self.current) && self.since == Some(
                    start,
                ),
                _ => false,
            }
        }
    }

    /// How a round starts from `a`, ends in `b` and what `r` it asks for.
    pub open spec fn is_round(
        a: Presence,
        update: Option<PresenceState>,
        now: u64,
        unix: i64,
        b: Presence,
        r: Round,
    ) -> bool {
        let state = match update {
            Some(state) => state,
            None => a.current,
        };
        &&& b.current == state
        &&& b.next_attempt == a.next_attempt
        &&& b.failed_once == a.failed_once
        &&& if !state.is_wanted() {
            &&& r.next is Wait
            &&& r.clear == (a.connection is Some && a.shown is Some)
            &&& r.close == (a.connection is Some && !state.config.enabled)
            &&& b.shown is None
            &&& b.since is None
            &&& b.connection == if r.close {
                None
            } else {
                a.connection
            }
        } else {
            &&& !r.clear
            &&& r.close == (a.connection is Some && a.connection->0@ != state.client())
            &&& if r.close || a.connection is None {
                &&& b.connection is None
                &&& b.shown == if r.close {
                    None
                } else {
                    a.shown
                }
                &&& b.since == a.since
                &&& match r.next {
                    Next::Wait => now < a.next_attempt,
                    Next::Connect { client_id } => now >= a.next_attempt && client_id@
                        == state.client(),
                    Next::Show { .. } => false,
                }
            } else {
                &&& b.connection == a.connection
                &&& b.shown == a.shown
                &&& b.since == Some(a.start(unix))
                &&& b.shows_next(r.next)
            }
        }
    }

    /// Since when the presence is wanted, from now on if it was not.
    pub open spec fn start(self, unix: i64) -> i64 {
        match self.since {
            Some(since) => since,
            None => unix,
        }
    }

    /// How the outcome of connecting leads from `a` to `b`, and what is done
    /// next.
    pub open spec fn is_connected(
        a: Presence,
        ok: bool,
        now: u64,
        unix: i64,
        b: Presence,
        next: Next,
    ) -> bool {
        &&& b.current == a.current
        &&& b.shown == a.shown
        &&& b.failed_once == !ok
        &&& if ok {
            &&& b.connection is Some && b.connection->0@ == a.current.client()
            &&& b.next_attempt == a.next_attempt
            &&& b.since == Some(a.start(unix))
            &&& b.shows_next(next)
        } else {
            &&& next is Wait
            &&& b.connection == a.connection
            &&& b.next_attempt == now + RETRY_AFTER
            &&& b.since == a.since
        }
    }

    /// How the outcome of showing the lines leads from `a` to `b`.
    pub open spec fn is_shown(a: Presence, ok: bool, now: u64, b: Presence) -> bool {
        &&& b.current == a.current
        &&& b.since == a.since
        &&& b.failed_once == a.failed_once
        &&& if ok {
            &&& b.is_up_to_date()
            &&& b.connection == a.connection
            &&& b.next_attempt == a.next_attempt
        } else {
            &&& b.shown is None
            &&& b.connection is None
            &&& b.next_attempt == now + RETRY_AFTER
        }
    }

    /// Nothing is connected, nothing shown.
    pub fn new(now: u64) -> (r: Self)
        ensures
            !r.current.is_wanted(),
            r.connection is None,
            r.shown is None,
            r.since is None,
            r.next_attempt == now,
            !r.failed_once,
    {
        Presence {
            current: PresenceState::default(),
            connection: None,
            shown: None,
            since: None,
            next_attempt: now,
            failed_once: false,
        }
    }

    fn show(&mut self, unix: i64) -> (r: Next)
        ensures
            final(self).current == old(self).current,
            final(self).connection == old(self).connection,
            final(self).shown == old(self).shown,
            final(self).next_attempt == old(self).next_attempt,
            final(self).failed_once == old(self).failed_once,
            final(self).since == Some(
                match old(self).since {
                    Some(since) => since,
                    None => unix,
                },
            ),
            final(self).shows_next(r),
    {
        let start: i64 = match self.since {
            Some(since) => since,
            None => unix,
        };
        self.since = Some(start);
        let lines = Lines {
            details: self.current.details(),
            status: self.current.status().to_owned(),
        };
        let repeats = match &self.shown {
            Some(shown) => same(shown.details.as_str(), lines.details.as_str()) && same(
                shown.status.as_str(),
                lines.status.as_str(),
            ),
            None => false,
        };
        if repeats {
            Next::Wait
        } else {
            Next::Show { lines, start }
        }
    }

    /// Starts a round of the worker, with the update that came, if one did.
    pub fn begin(&mut self, update: Option<PresenceState>, now: u64, unix: i64) -> (r: Round)
        ensures
            Presence::is_round(*old(self), update, now, unix, *final(self), r),
    {
        if let Some(state) = update {
            self.current = state;
        }
        if !self.current.wanted() {
            let clear = self.connection.is_some() && self.shown.is_some();
            self.shown = None;
            self.since = None;
            let close = self.connection.is_some() && !self.current.config.enabled;
            if close {
                self.connection = None;
            }
            return Round { clear, close, next: Next::Wait };
        }
        let client_id = trim(self.current.config.client_id.as_str());
        let close = match &self.connection {
            Some(id) => !same(id.as_str(), client_id.as_str()),
            None => false,
        };
        if close {
            self.connection = None;
            self.shown = None;
        }
        if self.connection.is_none() {
            let next = if now < self.next_attempt {
                Next::Wait
            } else {
                Next::Connect { client_id }
            };
            return Round { clear: false, close, next };
        }
        let next = self.show(unix);
        Round { clear: false, close, next }
    }

    /// Takes over how connecting went.
    pub fn connected(&mut self, ok: bool, now: u64, unix: i64) -> (r: Next)
        requires
            now + RETRY_AFTER <= u64::MAX,
        ensures
            Presence::is_connected(*old(self), ok, now, unix, *final(self), r),
    {
        if ok {
            self.failed_once = false;
            self.connection = Some(trim(self.current.config.client_id.as_str()));
            self.show(unix)
        } else {
            self.failed_once = true;
            self.next_attempt = now + RETRY_AFTER;
            Next::Wait
        }
    }

    /// Takes over how showing the lines went. After a failure the worker
    /// connects again later.
    pub fn shown(&mut self, ok: bool, now: u64)
        requires
            now + RETRY_AFTER <= u64::MAX,
        ensures
            Presence::is_shown(*old(self), ok, now, *final(self)),
    {
        if ok {
            self.shown = Some(
                Lines {
                    details: self.current.details(),
                    status: self.current.status().to_owned(),
                },
            );
        } else {
            self.connection = None;
            self.shown = None;
            self.next_attempt = now + RETRY_AFTER;
        }
    }
}

/// Lines that are shown are not shown again until something changes.
pub proof fn repeats_are_ignored(
    a: Presence,
    t: u64,
    b: Presence,
    now: u64,
    unix: i64,
    c: Presence,
    r: Round,
)
    requires
        a.connection is Some && a.connection->0@ == a.current.client(),
        a.current.is_wanted(),
        Presence::is_shown(a, true, t, b),
        Presence::is_round(b, None, now, unix, c, r),
    ensures
        r.next is Wait && !r.clear && !r.close,
        c.shown == b.shown,
{
}

/// A failed attempt is not repeated before its time, whatever comes in.
pub proof fn a_failed_attempt_is_not_repeated_soon(
    a: Presence,
    t: u64,
    unix: i64,
    b: Presence,
    next: Next,
    update: Option<PresenceState>,
    now: u64,
    c: Presence,
    r: Round,
)
    requires
        Presence::is_connected(a, false, t, unix, b, next) || Presence::is_shown(a, false, t, b),
        now < t + RETRY_AFTER,
        Presence::is_round(b, update, now, unix, c, r),
    ensures
        !(r.next is Connect),
{
}

/// What is not wanted is not shown, and a later start counts anew.
pub proof fn the_unwanted_is_cleared(
    a: Presence,
    update: Option<PresenceState>,
    now: u64,
    unix: i64,
    b: Presence,
    r: Round,
)
    requires
        Presence::is_round(a, update, now, unix, b, r),
        !b.current.is_wanted(),
    ensures
        b.shown is None && b.since is None,
        a.shown is Some && a.connection is Some ==> r.clear,
{
}

/// The time counts from the same start for as long as the presence is
/// wanted.
pub proof fn the_start_stays(
    a: Presence,
    update: Option<PresenceState>,
    now: u64,
    unix: i64,
    b: Presence,
    r: Round,
)
    requires
        Presence::is_round(a, update, now, unix, b, r),
        b.current.is_wanted(),
        a.since is Some,
    ensures
        b.since == a.since,
        r.next is Show ==> r.next->start == a.since->0,
{
}

/// Without an application id nothing is sent, whatever runs.
pub proof fn without_an_id_nothing_is_sent(
    a: Presence,
    update: Option<PresenceState>,
    now: u64,
    unix: i64,
    b: Presence,
    r: Round,
)
    requires
        Presence::is_round(a, update, now, unix, b, r),
        b.current.client().len() == 0,
    ensures
        r.next is Wait,
        b.shown is None,
{
}

/// While the buffer or a recording runs and the user wants it, the presence is
/// brought up: by a connection where there is none, and by its lines where others
/// are shown. They say what is clipped and what runs.
pub proof fn what_is_wanted_is_shown(
    a: Presence,
    state: PresenceState,
    now: u64,
    unix: i64,
    b: Presence,
    r: Round,
)
    requires
        Presence::is_round(a, Some(state), now, unix, b, r),
        state.config.enabled,
        crate::text::trimmed(state.config.client_id@).len() > 0,
        state.buffering || state.recording,
    ensures
        b.current == state,
        !r.clear,
        a.connection is None && now >= a.next_attempt ==> r.next is Connect
            && r.next->client_id@ == crate::text::trimmed(state.config.client_id@),
        a.connection is Some && a.connection->0@ != crate::text::trimmed(state.config.client_id@)
            ==> r.close && b.connection is None && b.shown is None,
        a.connection is Some && a.connection->0@ == crate::text::trimmed(state.config.client_id@)
            && a.shown is None ==> r.next is Show,
        r.next is Show ==> {
            &&& r.next->lines.status@ == (if state.recording {
                "Recording"@
            } else {
                "Replay buffer on"@
            })
            &&& state.config.show_game && state.game is Some ==> r.next->lines.details@
                == "Clipping "@ + state.game->0@
            &&& !state.config.show_game || state.game is None ==> r.next->lines.details@
                == "Clipping"@
        },
{
}

/// Nothing is shown while the user does not want it, or while nothing runs; a
/// connection is closed when the user turned the presence off.
pub proof fn what_is_not_wanted_is_taken_down(
    a: Presence,
    state: PresenceState,
    now: u64,
    unix: i64,
    b: Presence,
    r: Round,
)
    requires
        Presence::is_round(a, Some(state), now, unix, b, r),
        !state.config.enabled || !(state.buffering || state.recording),
    ensures
        r.next is Wait,
        b.shown is None,
        a.connection is Some && a.shown is Some ==> r.clear,
        a.connection is Some && !state.config.enabled ==> r.close && b.connection is None,
        state.config.enabled ==> b.connection == a.connection,
{
}

/// A connection that was made is used for the lines; one that failed is tried
/// again later, and so is one that was lost.
pub proof fn a_connection_is_used_or_tried_again(
    a: Presence,
    ok: bool,
    now: u64,
    unix: i64,
    b: Presence,
    next: Next,
)
    requires
        Presence::is_connected(a, ok, now, unix, b, next),
        a.shown is None,
    ensures
        ok ==> next is Show && b.connection is Some && b.connection->0@ == crate::text::trimmed(
            a.current.config.client_id@,
        ),
        !ok ==> next is Wait && b.next_attempt > now && b.failed_once,
{
}

/// Lines that could not be shown end the connection until a later attempt; lines
/// that were shown are on show.
pub proof fn a_broken_connection_is_given_up(a: Presence, ok: bool, now: u64, b: Presence)
    requires
        Presence::is_shown(a, ok, now, b),
    ensures
        b.current == a.current && b.since == a.since,
        ok ==> b.shown is Some && b.connection == a.connection && b.next_attempt == a.next_attempt,
        !ok ==> b.shown is None && b.connection is None && b.next_attempt == now + RETRY_AFTER,
{
}

/// A game is named on the first line where that is wanted, and a recording on the
/// second.
pub proof fn the_lines_tell_what_runs(state: PresenceState, game: String)
    requires
        state.game == Some(game),
    ensures
        state.config.show_game ==> state.first_line() == "Clipping "@ + game@,
        !state.config.show_game ==> state.first_line() == "Clipping"@,
        state.recording ==> state.second_line() == "Recording"@,
        !state.recording ==> state.second_line() == "Replay buffer on"@,
{
}

} // verus!
