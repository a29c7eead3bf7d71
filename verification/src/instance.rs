//! One running copy per user. Whoever owns the socket is the instance; a later
//! launch connects, asks the owner to show its window and leaves.
use vstd::prelude::*;

use crate::paths::join_path;
use crate::text::{same, trim};

verus! {

/// What a later launch writes to the owner.
pub open spec fn show_request() -> Seq<char> {
    "show"@
}

/// Held for the whole life of the first process.
#[derive(Debug)]
pub struct Guard {
    /// Another launch asked for the window.
    pub show: bool,
    /// The socket.
    pub path: String,
}

/// The socket of the instance: in the runtime folder of the session, in the
/// folder for temporary files where there is none.
pub fn socket_path(runtime_dir: Option<&str>, is_dir: bool, temp_dir: &str) -> (r: String)
    ensures
        r@ == crate::paths::below(
            if runtime_dir is Some && is_dir {
                runtime_dir->0@
            } else {
                temp_dir@
            },
            "openclips.sock"@,
        ),
{
    match runtime_dir {
        Some(dir) => if is_dir {
            join_path(dir, "openclips.sock")
        } else {
            join_path(temp_dir, "openclips.sock")
        },
        None => join_path(temp_dir, "openclips.sock"),
    }
}

/// Claims the single instance slot. `answered` says whether another copy
/// answered at the socket: it is running then, and is told to show its window.
/// Not being able to bind the socket is no reason not to run.
pub fn claim(path: String, answered: bool) -> (r: Option<Guard>)
    ensures
        match r {
            Some(guard) => !answered && !guard.show && guard.path == path,
            None => answered,
        },
{
    if answered {
        None
    } else {
        Some(Guard { show: false, path })
    }
}

impl Guard {
    /// Takes over a line that came in at the socket.
    pub fn received(&mut self, line: &str)
        ensures
            final(self).show == (old(self).show || crate::text::trimmed(line@) == show_request()),
            final(self).path == old(self).path,
    {
        if same(trim(line).as_str(), "show") {
            self.show = true;
        }
    }

    /// Whether another launch asked for the window since the last call.
    pub fn take_show_request(&mut self) -> (r: bool)
        ensures
            r == old(self).show,
            !final(self).show,
            final(self).path == old(self).path,
    {
        let asked = self.show;
        self.show = false;
        asked
    }
}

} // verus!
