//! Screen capture on Wayland: what is asked of the ScreenCast portal, and what
//! its answers mean.
//!
//! The permission is asked once: the portal returns a restore token, which
//! is stored and sent with the next request, and the session then starts
//! without a dialog for as long as the user does not revoke it.
use vstd::prelude::*;

use crate::error::CaptureError;
use crate::paths::join_path;
use crate::text::{join2, same, trim};

verus! {

/// Why a cast did not start.
#[derive(Debug)]
pub enum Failure {
    /// No portal, or one without ScreenCast: another source may still work.
    Unavailable(String),
    /// The portal answered and the answer was no (dialog dismissed, access
    /// denied) or the start was cancelled from our side.
    Refused(CaptureError),
}

/// The kinds of sources that can be shared.
#[derive(Debug, Clone, Copy, PartialEq, Eq, Structural)]
pub struct Sources {
    pub monitor: bool,
    pub window: bool,
}

/// How the cursor gets into the stream.
#[derive(Debug, Clone, Copy, PartialEq, Eq, Structural)]
pub enum CursorMode {
    Hidden,
    Embedded,
}

/// The cursor modes that a portal offers.
#[derive(Debug, Clone, Copy, PartialEq, Eq, Structural)]
pub struct CursorModes {
    pub hidden: bool,
    pub embedded: bool,
}

/// What is asked of the portal.
#[derive(Debug)]
pub struct CastRequest {
    pub sources: Sources,
    pub cursor: Option<CursorMode>,
    pub token: Option<String>,
}

/// What to share: monitors and windows, as far as the portal offers them, and
/// monitors when it offers neither. A portal that does not say is asked for
/// both.
pub fn choose_sources(available: Option<Sources>) -> (r: Sources)
    ensures
        r == match available {
            None => Sources { monitor: true, window: true },
            Some(a) => if !a.monitor && !a.window {
                Sources { monitor: true, window: false }
            } else {
                a
            },
        },
{
    match available {
        None => Sources { monitor: true, window: true },
        Some(a) => {
            if !a.monitor && !a.window {
                Sources { monitor: true, window: false }
            } else {
                a
            }
        },
    }
}

/// Whether a portal offers a cursor mode.
pub open spec fn offers(modes: CursorModes, mode: CursorMode) -> bool {
    match mode {
        CursorMode::Hidden => modes.hidden,
        CursorMode::Embedded => modes.embedded,
    }
}

/// The cursor mode that the user wants.
pub open spec fn wanted_cursor(show_cursor: bool) -> CursorMode {
    if show_cursor {
        CursorMode::Embedded
    } else {
        CursorMode::Hidden
    }
}

/// The cursor mode to ask for: the wanted one, unless the portal says that it
/// does not offer it.
pub fn choose_cursor(show_cursor: bool, available: Option<CursorModes>) -> (r: Option<CursorMode>)
    ensures
        r == match available {
            Some(modes) => if offers(modes, wanted_cursor(show_cursor)) {
                Some(wanted_cursor(show_cursor))
            } else {
                None
            },
            None => Some(wanted_cursor(show_cursor)),
        },
{
    let wanted = if show_cursor {
        CursorMode::Embedded
    } else {
        CursorMode::Hidden
    };
    match available {
        Some(modes) => {
            let offered = match wanted {
                CursorMode::Hidden => modes.hidden,
                CursorMode::Embedded => modes.embedded,
            };
            if offered {
                Some(wanted)
            } else {
                None
            }
        },
        None => Some(wanted),
    }
}

/// The request for a cast. Only what the portal offers may be asked for, or
/// it closes the session: some backends cannot share windows, some cannot
/// draw the cursor into the stream.
pub fn negotiate(
    show_cursor: bool,
    sources: Option<Sources>,
    cursors: Option<CursorModes>,
    token: Option<String>,
) -> (r: CastRequest)
    ensures
        r.sources.monitor || r.sources.window,
        r.sources == match sources {
            None => Sources { monitor: true, window: true },
            Some(a) => if !a.monitor && !a.window {
                Sources { monitor: true, window: false }
            } else {
                a
            },
        },
        r.cursor == match cursors {
            Some(modes) => if offers(modes, wanted_cursor(show_cursor)) {
                Some(wanted_cursor(show_cursor))
            } else {
                None
            },
            None => Some(wanted_cursor(show_cursor)),
        },
        r.token == token,
{
    CastRequest {
        sources: choose_sources(sources),
        cursor: choose_cursor(show_cursor, cursors),
        token,
    }
}

/// The token to store after a start: a new one that differs from the one that
/// was sent.
pub fn token_to_store(new: Option<String>, sent: Option<&str>) -> (r: Option<String>)
    ensures
        r == match new {
            Some(token) => match sent {
                Some(s) if s@ == token@ => None,
                _ => Some(token),
            },
            None => None,
        },
{
    match new {
        Some(token) => {
            let known = match sent {
                Some(s) => same(s, token.as_str()),
                None => false,
            };
            if known {
                None
            } else {
                Some(token)
            }
        },
        None => None,
    }
}

/// A started stream: its PipeWire node, and its size where the portal says
/// it.
#[derive(Debug, Clone, Copy)]
pub struct CastStream {
    pub node_id: u32,
    pub size: Option<(i32, i32)>,
}

/// What the portal's answer to a start means. The first stream is the one
/// that is captured.
pub fn accept_streams(answer: Result<Vec<CastStream>, String>) -> (r: Result<CastStream, Failure>)
    ensures
        match answer {
            Err(reason) => r matches Err(Failure::Refused(CaptureError::PipelineBuild(text)))
                && text@ == "screen sharing was not allowed: "@ + reason@,
            Ok(streams) => if streams.len() == 0 {
                r matches Err(Failure::Refused(CaptureError::PipelineBuild(text))) && text@
                    == "the screen sharing dialog returned nothing to capture"@
            } else {
                r == Ok::<CastStream, Failure>(streams@[0])
            },
        },
{
    match answer {
        Err(reason) => Err(
            Failure::Refused(
                CaptureError::PipelineBuild(
                    join2("screen sharing was not allowed: ", reason.as_str()),
                ),
            ),
        ),
        Ok(streams) => {
            if streams.len() == 0 {
                Err(
                    Failure::Refused(
                        CaptureError::PipelineBuild(
                            "the screen sharing dialog returned nothing to capture".to_owned(),
                        ),
                    ),
                )
            } else {
                Ok(streams[0])
            }
        },
    }
}

/// Whether a path starts at the root.
pub open spec fn is_absolute(path: Seq<char>) -> bool {
    path.len() > 0 && path[0] == '/'
}

/// Where the restore token is kept, if there is a place for it.
pub open spec fn token_file(state_home: Option<Seq<char>>, home: Option<Seq<char>>) -> Option<
    Seq<char>,
> {
    let state = match (state_home, home) {
        (Some(s), _) if is_absolute(s) => Some(s),
        (_, Some(h)) => Some(crate::paths::below(h, ".local/state"@)),
        _ => None,
    };
    match state {
        Some(s) => Some(
            crate::paths::below(crate::paths::below(s, "openclips"@), "screencast-token"@),
        ),
        None => None,
    }
}

/// What a text that may be missing says.
pub open spec fn str_view(text: Option<&str>) -> Option<Seq<char>> {
    match text {
        Some(s) => Some(s@),
        None => None,
    }
}

/// `$XDG_STATE_HOME/openclips/screencast-token`, by default under
/// `~/.local/state`.
pub fn token_path(state_home: Option<&str>, home: Option<&str>) -> (r: Option<String>)
    ensures
        crate::engine::model::text_view(r) == token_file(str_view(state_home), str_view(home)),
{
    proof {
        reveal_strlit(".local/state");
        reveal_strlit("openclips");
        reveal_strlit("screencast-token");
    }
    let absolute = match state_home {
        Some(s) => s.unicode_len() > 0 && s.get_char(0) == '/',
        None => false,
    };
    let state: Option<String> = if absolute {
        match state_home {
            Some(s) => Some(s.to_owned()),
            None => None,
        }
    } else {
        match home {
            Some(h) => Some(join_path(h, ".local/state")),
            None => None,
        }
    };
    match state {
        Some(s) => {
            let dir = join_path(s.as_str(), "openclips");
            Some(join_path(dir.as_str(), "screencast-token"))
        },
        None => None,
    }
}

/// The token in the text of its file, if there is one.
pub fn load_token(text: &str) -> (r: Option<String>)
    ensures
        crate::engine::model::text_view(r) == if crate::text::trimmed(text@).len() == 0 {
            None
        } else {
            Some(crate::text::trimmed(text@))
        },
{
    let token = trim(text);
    if token.as_str().unicode_len() == 0 {
        None
    } else {
        Some(token)
    }
}

} // verus!
