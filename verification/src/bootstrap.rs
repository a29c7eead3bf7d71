//! Finds the GStreamer runtime before any of its libraries are needed.
use vstd::prelude::*;

use crate::paths::join_path;
use crate::text::{join3, list_contains};

verus! {

/// Where the runtime was found.
#[derive(Debug)]
pub struct Runtime {
    pub root: String,
    pub bin: String,
}

/// The variable that names the installed runtime.
pub open spec fn runtime_variable() -> Seq<char> {
    "GSTREAMER_1_0_ROOT_MSVC_X86_64"@
}

/// The file that tells a runtime folder.
pub open spec fn probe_file() -> Seq<char> {
    "gstreamer-1.0-0.dll"@
}

/// The folders in which the runtime may be, in order. A bundled runtime next
/// to the executable wins over an installed one.
pub open spec fn roots(exe_dir: Option<Seq<char>>, installed: Option<Seq<char>>) -> Seq<Seq<char>> {
    (match exe_dir {
        Some(dir) => seq![crate::paths::below(dir, "gstreamer"@), dir],
        None => Seq::empty(),
    }) + (match installed {
        Some(root) => seq![root],
        None => Seq::empty(),
    }) + seq![
        "C:\\Program Files\\gstreamer\\1.0\\msvc_x86_64"@,
        "C:\\gstreamer\\1.0\\msvc_x86_64"@,
    ]
}

/// What an optional text says.
pub open spec fn option_view(text: Option<&str>) -> Option<Seq<char>> {
    match text {
        Some(text) => Some(text@),
        None => None,
    }
}

/// The folders in which the runtime may be, in order. `installed` is the value
/// of the variable that names the installed runtime.
pub fn candidates(exe_dir: Option<&str>, installed: Option<&str>) -> (r: Vec<String>)
    ensures
        crate::text::views(r@) == roots(option_view(exe_dir), option_view(installed)),
{
    let mut out: Vec<String> = Vec::new();
    if let Some(dir) = exe_dir {
        out.push(join_path(dir, "gstreamer"));
        out.push(dir.to_owned());
    }
    if let Some(root) = installed {
        out.push(root.to_owned());
    }
    out.push("C:\\Program Files\\gstreamer\\1.0\\msvc_x86_64".to_owned());
    out.push("C:\\gstreamer\\1.0\\msvc_x86_64".to_owned());
    assert(crate::text::views(out@) =~= roots(option_view(exe_dir), option_view(installed)));
    out
}

/// The folder with the libraries of a runtime.
pub open spec fn bin_of(root: Seq<char>) -> Seq<char> {
    crate::paths::below(root, "bin"@)
}

/// Whether a folder holds the core library.
pub open spec fn is_bin(dir: Seq<char>, files: Seq<Seq<char>>) -> bool {
    files.contains(crate::paths::below(dir, probe_file()))
}

/// Whether a root holds the runtime, in its `bin` folder or itself.
pub open spec fn holds_runtime(files: Seq<Seq<char>>) -> spec_fn(Seq<char>) -> bool {
    |root: Seq<char>| is_bin(bin_of(root), files) || is_bin(root, files)
}

fn has_probe(dir: &str, files: &Vec<String>) -> (r: bool)
    ensures
        r == is_bin(dir@, crate::text::views(files@)),
{
    let probe = join_path(dir, "gstreamer-1.0-0.dll");
    list_contains(files, probe.as_str())
}

/// The first candidate root whose `bin` folder holds the core library. A root
/// that is the `bin` folder (bundled layout) is accepted too. `files` lists
/// the core libraries that exist.
pub fn find_runtime(exe_dir: Option<&str>, installed: Option<&str>, files: &Vec<String>) -> (r:
    Option<Runtime>)
    ensures
        ({
            let all = roots(option_view(exe_dir), option_view(installed));
            let found = crate::text::views(files@);
            match crate::lists::first_where(all, holds_runtime(found)) {
                Some(i) => r is Some && r->0.root@ == all[i] && r->0.bin@ == if is_bin(
                    bin_of(all[i]),
                    found,
                ) {
                    bin_of(all[i])
                } else {
                    all[i]
                },
                None => r is None,
            }
        }),
{
    let list = candidates(exe_dir, installed);
    let ghost all = crate::text::views(list@);
    let ghost p = holds_runtime(crate::text::views(files@));
    let mut i: usize = 0;
    while i < list.len()
        invariant
            i <= list.len(),
            all == crate::text::views(list@),
            all == roots(option_view(exe_dir), option_view(installed)),
            p == holds_runtime(crate::text::views(files@)),
            forall|k: int| 0 <= k < i ==> !p(#[trigger] all[k]),
        decreases list.len() - i,
    {
        let root = list[i].as_str();
        assert(root@ == all[i as int]);
        let bin = join_path(root, "bin");
        let nested = has_probe(bin.as_str(), files);
        if nested || has_probe(root, files) {
            proof {
                crate::lists::first_where_is_first(all, p);
                assert(p(all[i as int]));
            }
            return Some(
                Runtime {
                    root: root.to_owned(),
                    bin: if nested {
                        bin
                    } else {
                        root.to_owned()
                    },
                },
            );
        }
        i = i + 1;
    }
    proof {
        crate::lists::first_where_is_first(all, p);
    }
    None
}

/// What is said where there is no runtime.
pub fn missing_runtime() -> (r: String)
    ensures
        r@
            == "GStreamer 1.28 (MSVC 64 bit) was not found. Install it from https://gstreamer.freedesktop.org/download/ or set "@
            + runtime_variable() + " to its folder."@,
{
    join3(
        "GStreamer 1.28 (MSVC 64 bit) was not found. Install it from https://gstreamer.freedesktop.org/download/ or set ",
        "GSTREAMER_1_0_ROOT_MSVC_X86_64",
        " to its folder.",
    )
}

/// A runtime next to the executable is taken whatever else is installed.
pub proof fn a_bundled_runtime_wins(
    dir: Seq<char>,
    installed: Option<Seq<char>>,
    files: Seq<Seq<char>>,
)
    requires
        is_bin(bin_of(crate::paths::below(dir, "gstreamer"@)), files),
    ensures
        crate::lists::first_where(roots(Some(dir), installed), holds_runtime(files)) == Some(0int),
{
    let all = roots(Some(dir), installed);
    assert(all[0] == crate::paths::below(dir, "gstreamer"@));
    crate::lists::first_where_is_first(all, holds_runtime(files));
    assert(holds_runtime(files)(all[0]));
}

} // verus!
