//! Running processes from `/proc`.
//!
//! A game started through Proton or Wine runs as `wine64-preloader` (or
//! similar) with the Windows executable in its command line, so the name
//! reported for such a process is that `.exe`: the games database, which is
//! keyed by Windows executable names, then recognises it as it does on
//! Windows.
use vstd::prelude::*;

use crate::config::RunningProcess;
use crate::paths::file_name;
use crate::text::{chars_of, ends_with, find_last, parse_u32, slice_of, to_ascii_lower,
    to_lowercase};

verus! {

/// Bytes as text, with a replacement character for what is not UTF-8.
pub uninterp spec fn lossy_text(bytes: Seq<u8>) -> Seq<char>;

/// `String::from_utf8_lossy`: the bytes as text, with U+FFFD in the place of
/// what is not valid UTF-8. The text depends on the bytes alone.
#[verifier::external_body]
pub(crate) fn from_utf8_lossy(bytes: &[u8]) -> (r: String)
    ensures
        r@ == lossy_text(bytes@),
{
    String::from_utf8_lossy(bytes).into_owned()
}

/// The pieces of a command line between its zero bytes that are not empty.
pub open spec fn arguments(cmdline: Seq<u8>) -> Seq<Seq<u8>>
    decreases cmdline.len(),
{
    if cmdline.len() == 0 {
        Seq::empty()
    } else {
        let i = argument_start(cmdline);
        let before = if 0 < i <= cmdline.len() {
            arguments(cmdline.take(i - 1))
        } else {
            Seq::empty()
        };
        if i < cmdline.len() {
            before.push(cmdline.skip(i))
        } else {
            before
        }
    }
}

/// Where the last piece of a command line starts.
pub open spec fn argument_start(cmdline: Seq<u8>) -> int
    decreases cmdline.len(),
{
    if cmdline.len() == 0 || cmdline.last() == 0 {
        cmdline.len() as int
    } else {
        argument_start(cmdline.drop_last())
    }
}

proof fn argument_start_is_last(cmdline: Seq<u8>, i: int)
    requires
        0 <= i <= cmdline.len(),
        forall|k: int| i <= k < cmdline.len() ==> cmdline[k] != 0,
        i > 0 ==> cmdline[i - 1] == 0,
    ensures
        argument_start(cmdline) == i,
    decreases cmdline.len(),
{
    if i < cmdline.len() {
        argument_start_is_last(cmdline.drop_last(), i);
    }
}

/// The texts of the arguments of a command line.
pub open spec fn argument_texts(cmdline: Seq<u8>) -> Seq<Seq<char>> {
    arguments(cmdline).map_values(|a: Seq<u8>| lossy_text(a))
}

fn split_arguments(cmdline: &[u8], end: usize) -> (r: Vec<String>)
    requires
        end <= cmdline.len(),
    ensures
        crate::text::views(r@) == argument_texts(cmdline@.take(end as int)),
    decreases end,
{
    let ghost s = cmdline@.take(end as int);
    if end == 0 {
        let r: Vec<String> = Vec::new();
        assert(crate::text::views(r@) =~= argument_texts(s));
        return r;
    }
    let mut i: usize = end;
    while i > 0 && cmdline[i - 1] != 0
        invariant
            i <= end <= cmdline.len(),
            s == cmdline@.take(end as int),
            forall|k: int| i <= k < end ==> s[k] != 0,
        decreases i,
    {
        i = i - 1;
    }
    proof {
        argument_start_is_last(s, i as int);
    }
    let mut out = if i > 0 {
        assert(s.take(i - 1) =~= cmdline@.take(i - 1));
        split_arguments(cmdline, i - 1)
    } else {
        Vec::new()
    };
    let ghost before = crate::text::views(out@);
    assert(before =~= if i > 0 {
        argument_texts(s.take(i - 1))
    } else {
        Seq::empty()
    });
    if i < end {
        let piece = vstd::slice::slice_subrange(cmdline, i, end);
        assert(piece@ =~= s.skip(i as int));
        let text = from_utf8_lossy(piece);
        out.push(text);
        assert(crate::text::views(out@) =~= before.push(text@));
    }
    assert(crate::text::views(out@) =~= argument_texts(s));
    out
}

/// Whether an argument names a Windows executable.
pub open spec fn is_windows_exe(arg: Seq<char>) -> bool {
    crate::text::ends_in(crate::text::ascii_lower(arg), ".exe"@)
}

/// The last part of a Windows path. It keeps its backslashes inside a command
/// line.
pub open spec fn windows_file_name(path: Seq<char>) -> Seq<char> {
    let a = crate::text::last_index(path, '\\');
    let b = crate::text::last_index(path, '/');
    path.skip(
        if a > b {
            a + 1
        } else {
            b + 1
        },
    )
}

fn find_windows_file_name(path: &str) -> (r: String)
    ensures
        r@ == windows_file_name(path@),
{
    let chars = chars_of(path);
    proof {
        crate::text::nothing_after_last(path@, '\\');
        crate::text::nothing_after_last(path@, '/');
    }
    let a: usize = match find_last(chars.as_slice(), '\\') {
        Some(i) => i + 1,
        None => 0,
    };
    let b: usize = match find_last(chars.as_slice(), '/') {
        Some(i) => i + 1,
        None => 0,
    };
    let from: usize = if a > b {
        a
    } else {
        b
    };
    let r = slice_of(chars.as_slice(), from, chars.len());
    assert(r@ =~= path@.skip(from as int));
    r
}

/// The first argument that names a Windows executable.
pub open spec fn first_windows_exe(args: Seq<Seq<char>>) -> Option<Seq<char>>
    decreases args.len(),
{
    if args.len() == 0 {
        None
    } else if is_windows_exe(args[0]) {
        Some(args[0])
    } else {
        first_windows_exe(args.drop_first())
    }
}

/// The name that a process with these arguments goes by, before its letters
/// are made small.
pub open spec fn program_text(args: Seq<Seq<char>>) -> Option<Seq<char>> {
    if args.len() == 0 {
        None
    } else {
        let name = match first_windows_exe(args) {
            Some(arg) => Some(windows_file_name(arg)),
            None => crate::paths::unix_file_name(args[0]),
        };
        match name {
            Some(text) => if text.len() > 0 {
                Some(text)
            } else {
                None
            },
            None => None,
        }
    }
}

/// The name that a process with these arguments goes by: the first `.exe`
/// argument for Wine and Proton processes, the program itself otherwise.
pub fn program_name(args: &Vec<String>) -> (r: Option<String>)
    ensures
        crate::engine::model::text_view(r) == program_text(crate::text::views(args@)),
{
    let ghost all = crate::text::views(args@);
    if args.len() == 0 {
        return None;
    }
    proof {
        reveal_strlit(".exe");
    }
    let mut i: usize = 0;
    assert(all.skip(0) =~= all);
    while i < args.len()
        invariant
            i <= args.len(),
            args.len() > 0,
            all == crate::text::views(args@),
            first_windows_exe(all) == first_windows_exe(all.skip(i as int)),
        decreases args.len() - i,
    {
        assert(all.skip(i as int).drop_first() =~= all.skip(i + 1));
        let lower = to_ascii_lower(args[i].as_str());
        if ends_with(lower.as_str(), ".exe") {
            let name = find_windows_file_name(args[i].as_str());
            return if name.as_str().unicode_len() > 0 {
                Some(name)
            } else {
                None
            };
        }
        i = i + 1;
    }
    match file_name(args[0].as_str()) {
        Some(name) => {
            if name.as_str().unicode_len() > 0 {
                Some(name)
            } else {
                None
            }
        },
        None => None,
    }
}

/// The lower case file name a process goes by: the first `.exe` argument for
/// Wine and Proton processes, the program itself otherwise. A kernel thread
/// has an empty command line and no name.
pub fn executable_name(cmdline: &[u8]) -> (r: Option<String>)
    ensures
        crate::engine::model::text_view(r) == match program_text(argument_texts(cmdline@)) {
            Some(name) => Some(crate::text::lowercase(name)),
            None => None,
        },
{
    let args = split_arguments(cmdline, cmdline.len());
    assert(cmdline@.take(cmdline@.len() as int) =~= cmdline@);
    match program_name(&args) {
        Some(name) => Some(to_lowercase(name.as_str())),
        None => None,
    }
}

/// A command line without anything in it belongs to nobody.
pub proof fn kernel_threads_have_no_name(cmdline: Seq<u8>)
    requires
        forall|i: int| 0 <= i < cmdline.len() ==> cmdline[i] == 0,
    ensures
        program_text(argument_texts(cmdline)) is None,
{
    no_arguments(cmdline);
}

proof fn no_arguments(cmdline: Seq<u8>)
    requires
        forall|i: int| 0 <= i < cmdline.len() ==> cmdline[i] == 0,
    ensures
        arguments(cmdline).len() == 0,
    decreases cmdline.len(),
{
    if cmdline.len() > 0 {
        argument_start_is_last(cmdline, cmdline.len() as int);
        no_arguments(cmdline.take(cmdline.len() - 1));
    }
}

/// An entry of `/proc`: its name, the command line if it could be read, and
/// the executable that it links to.
#[derive(Debug)]
pub struct ProcEntry {
    pub name: String,
    pub cmdline: Option<Vec<u8>>,
    pub exe: Option<String>,
}

/// What a running process says.
pub struct ProcessView {
    pub pid: u32,
    pub exe: Seq<char>,
    pub path: Option<String>,
    pub foreground: bool,
}

/// What a running process says.
pub open spec fn process_view(p: RunningProcess) -> ProcessView {
    ProcessView { pid: p.pid, exe: p.exe@, path: p.path, foreground: p.foreground }
}

/// What a list of processes says.
pub open spec fn process_views(list: Seq<RunningProcess>) -> Seq<ProcessView> {
    list.map_values(|p: RunningProcess| process_view(p))
}

/// The process of an entry, if it is one that has a name. Which window has
/// the focus is a question for the compositor.
pub open spec fn process_of(entry: ProcEntry) -> Option<ProcessView> {
    match (crate::text::number_of(entry.name@, u32::MAX as nat), entry.cmdline) {
        (Some(pid), Some(cmdline)) => match program_text(argument_texts(cmdline@)) {
            Some(name) => Some(
                ProcessView {
                    pid: pid as u32,
                    exe: crate::text::lowercase(name),
                    path: entry.exe,
                    foreground: false,
                },
            ),
            None => None,
        },
        _ => None,
    }
}

/// The processes of the entries, in order.
pub open spec fn processes_of(entries: Seq<ProcEntry>) -> Seq<ProcessView>
    decreases entries.len(),
{
    if entries.len() == 0 {
        Seq::empty()
    } else {
        let before = processes_of(entries.drop_last());
        match process_of(entries.last()) {
            Some(p) => before.push(p),
            None => before,
        }
    }
}

/// Watches the processes of this machine.
#[derive(Debug, Clone, Copy, PartialEq, Eq, Structural)]
pub struct ProcWatcher;

impl ProcWatcher {
    /// The running processes among the entries of `/proc`.
    pub fn running(&self, entries: &Vec<ProcEntry>) -> (r: Vec<RunningProcess>)
        ensures
            process_views(r@) == processes_of(entries@),
    {
        let mut found: Vec<RunningProcess> = Vec::new();
        let mut i: usize = 0;
        assert(process_views(found@) =~= processes_of(entries@.take(0)));
        while i < entries.len()
            invariant
                i <= entries.len(),
                process_views(found@) == processes_of(entries@.take(i as int)),
            decreases entries.len() - i,
        {
            assert(entries@.take(i + 1).drop_last() =~= entries@.take(i as int));
            let ghost before = process_views(found@);
            let entry = &entries[i];
            if let Some(pid) = parse_u32(entry.name.as_str()) {
                if let Some(cmdline) = &entry.cmdline {
                    if let Some(exe) = executable_name(cmdline.as_slice()) {
                        let process = RunningProcess {
                            pid,
                            exe,
                            path: match &entry.exe {
                                Some(path) => Some(path.clone()),
                                None => None,
                            },
                            foreground: false,
                        };
                        assert(process_of(*entry) == Some(process_view(process)));
                        found.push(process);
                        assert(process_views(found@) =~= before.push(process_view(process)));
                    }
                }
            }
            i = i + 1;
        }
        assert(entries@.take(i as int) =~= entries@);
        found
    }
}

/// A process of Wine or Proton goes by its Windows program, wherever that stands
/// among the arguments; any other process by its own.
pub proof fn a_process_goes_by_its_program(args: Seq<Seq<char>>, i: int)
    ensures
        0 <= i < args.len() && is_windows_exe(args[i]) && (forall|k: int|
            0 <= k < i ==> !is_windows_exe(#[trigger] args[k])) && windows_file_name(
            args[i],
        ).len() > 0 ==> program_text(args) == Some(windows_file_name(args[i])),
        args.len() > 0 && (forall|k: int|
            0 <= k < args.len() ==> !is_windows_exe(#[trigger] args[k]))
            && crate::paths::unix_file_name(args[0]) is Some && crate::paths::unix_file_name(
            args[0],
        )->0.len() > 0 ==> program_text(args) == crate::paths::unix_file_name(args[0]),
{
    the_first_windows_exe_is_found(args, i);
}

proof fn the_first_windows_exe_is_found(args: Seq<Seq<char>>, i: int)
    ensures
        0 <= i < args.len() && is_windows_exe(args[i]) && (forall|k: int|
            0 <= k < i ==> !is_windows_exe(#[trigger] args[k])) ==> first_windows_exe(args) == Some(
            args[i],
        ),
        (forall|k: int| 0 <= k < args.len() ==> !is_windows_exe(#[trigger] args[k]))
            ==> first_windows_exe(args) is None,
    decreases args.len(),
{
    if args.len() > 0 {
        let rest = args.drop_first();
        assert(forall|k: int| 0 <= k < rest.len() ==> rest[k] == args[k + 1]);
        the_first_windows_exe_is_found(rest, i - 1);
        if !is_windows_exe(args[0]) && 0 < i < args.len() {
            assert(rest[i - 1] == args[i]);
        }
    }
}

/// The file name of a Windows path has no separator, and is what stands behind
/// the last one.
pub proof fn a_windows_file_name_stands_behind_the_separators(path: Seq<char>, i: int)
    ensures
        ({
            let name = windows_file_name(path);
            &&& name.len() <= path.len()
            &&& path.skip(path.len() - name.len()) == name
            &&& 0 <= i < name.len() ==> name[i] != '\\' && name[i] != '/'
            &&& name.len() < path.len() ==> {
                let before = path[path.len() - name.len() - 1];
                before == '\\' || before == '/'
            }
        }),
{
    crate::text::nothing_after_last(path, '\\');
    crate::text::nothing_after_last(path, '/');
    let name = windows_file_name(path);
    assert(path.skip(path.len() - name.len()) =~= name);
}

/// Every entry of a process with a name is listed under its number, and nothing
/// else is.
pub proof fn every_named_process_is_listed(entries: Seq<ProcEntry>, p: ProcessView)
    ensures
        processes_of(entries).contains(p) <==> exists|i: int|
            0 <= i < entries.len() && process_of(#[trigger] entries[i]) == Some(p),
    decreases entries.len(),
{
    if entries.len() > 0 {
        let front = entries.drop_last();
        let before = processes_of(front);
        let all = processes_of(entries);
        every_named_process_is_listed(front, p);
        if all.contains(p) {
            let k = choose|k: int| 0 <= k < all.len() && all[k] == p;
            if k < before.len() {
                assert(before[k] == p);
                let i = choose|i: int|
                    0 <= i < front.len() && process_of(#[trigger] front[i]) == Some(p);
                assert(process_of(entries[i]) == Some(p));
            } else {
                assert(process_of(entries[entries.len() - 1]) == Some(p));
            }
        }
        if exists|i: int| 0 <= i < entries.len() && process_of(#[trigger] entries[i]) == Some(p) {
            let i = choose|i: int|
                0 <= i < entries.len() && process_of(#[trigger] entries[i]) == Some(p);
            if i < front.len() {
                assert(process_of(front[i]) == Some(p));
                let k = choose|k: int| 0 <= k < before.len() && before[k] == p;
                assert(all[k] == p);
            } else {
                assert(all[before.len() as int] == p);
            }
        }
    }
}

/// A listed process has the number of its entry and a name in lower case.
pub proof fn a_process_is_numbered_and_named(entry: ProcEntry)
    ensures
        process_of(entry) matches Some(p) ==> crate::text::number_of(entry.name@, u32::MAX as nat)
            == Some(p.pid as nat) && entry.cmdline is Some && program_text(
            argument_texts(entry.cmdline->0@),
        ) is Some && p.exe == crate::text::lowercase(
            program_text(argument_texts(entry.cmdline->0@))->0,
        ) && p.path == entry.exe,
        crate::text::number_of(entry.name@, u32::MAX as nat) is Some && entry.cmdline is Some
            && program_text(argument_texts(entry.cmdline->0@)) is Some ==> process_of(entry) is Some,
{
}

} // verus!
