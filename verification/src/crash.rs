//! Last resort crash reporting: where the notes go and what they say.
use vstd::prelude::*;

use crate::paths::join_path;
use crate::text::{chars_of, decimal, join2, slice_of};

verus! {

/// Where dumps go; shown in the log at startup so the user can find them.
pub fn dump_dir(data_dir: &str) -> (r: String)
    ensures
        r@ == crate::paths::below(data_dir@, "crashes"@),
{
    join_path(data_dir, "crashes")
}

/// The path of the files of a crash, without their ending. `stamp` is the time
/// in seconds since 1970.
pub fn report_base(dir: &str, stamp: u64) -> (r: String)
    ensures
        r@ == crate::paths::below(dir@, "openclips-"@ + crate::text::dec(stamp as nat)),
{
    join_path(dir, join2("openclips-", decimal(stamp).as_str()).as_str())
}

/// A hexadecimal digit.
pub open spec fn hex_digit(d: int) -> char {
    if d < 10 {
        (d + 48) as char
    } else {
        (d + 87) as char
    }
}

/// A number in hexadecimal.
pub open spec fn hex(n: nat) -> Seq<char>
    decreases n,
{
    if n < 16 {
        seq![hex_digit(n as int)]
    } else {
        hex(n / 16).push(hex_digit((n % 16) as int))
    }
}

/// A number in hexadecimal with at least so many digits.
pub open spec fn hex_padded(n: nat, width: nat) -> Seq<char> {
    crate::text::zero_padded(hex(n), width)
}

fn digit(d: u64) -> (r: char)
    requires
        d < 16,
    ensures
        r == hex_digit(d as int),
{
    if d < 10 {
        (d as u8 + 48) as char
    } else {
        (d as u8 + 87) as char
    }
}

/// Writes a number in hexadecimal.
pub fn to_hex(n: u64) -> (r: String)
    ensures
        r@ == hex(n as nat),
    decreases n,
{
    if n < 16 {
        let mut s = String::new();
        s.push(digit(n));
        assert(s@ =~= seq![hex_digit(n as int)]);
        s
    } else {
        let mut s = to_hex(n / 16);
        s.push(digit(n % 16));
        s
    }
}

fn to_hex_padded(n: u64, width: usize) -> (r: String)
    ensures
        r@ == hex_padded(n as nat, width as nat),
{
    let digits = to_hex(n);
    let count: usize = digits.as_str().unicode_len();
    let mut out = String::new();
    let mut i: usize = count;
    assert(out@ =~= Seq::new(0nat, |k: int| '0'));
    while i < width
        invariant
            count <= i,
            count <= width ==> i <= width,
            count > width ==> i == count,
            out@ == Seq::new((i - count) as nat, |k: int| '0'),
        decreases width - i,
    {
        out.push('0');
        i = i + 1;
        assert(out@ =~= Seq::new((i - count) as nat, |k: int| '0'));
    }
    out.append(digits.as_str());
    assert(out@ =~= hex_padded(n as nat, width as nat));
    out
}

/// Where a crash happened.
#[derive(Debug)]
pub struct CrashRecord {
    pub access_violation: bool,
    pub code: u32,
    pub address: u64,
    /// The file that the address belongs to, and where it is loaded.
    pub module: Option<Module>,
}

/// A file that is loaded.
#[derive(Debug)]
pub struct Module {
    pub path: String,
    pub base: u64,
}

/// The file name of a module.
pub open spec fn module_name(path: Seq<char>) -> Seq<char> {
    let slash = crate::text::last_index(path, '/');
    let backslash = crate::text::last_index(path, '\\');
    let at = if slash > backslash {
        slash
    } else {
        backslash
    };
    path.skip(at + 1)
}

/// The file name of a module.
pub fn module_file(path: &str) -> (r: String)
    ensures
        r@ == module_name(path@),
{
    let chars = chars_of(path);
    let slash = crate::text::find_last(chars.as_slice(), '/');
    let backslash = crate::text::find_last(chars.as_slice(), '\\');
    let from: usize = match (slash, backslash) {
        (Some(a), Some(b)) => if a > b {
            a + 1
        } else {
            b + 1
        },
        (Some(a), None) => a + 1,
        (None, Some(b)) => b + 1,
        (None, None) => 0,
    };
    let name = slice_of(chars.as_slice(), from, chars.len());
    assert(name@ =~= module_name(path@));
    name
}

/// What the note of a crash says of its place.
pub open spec fn place_text(record: CrashRecord) -> Seq<char> {
    (if record.access_violation {
        "access violation"@
    } else {
        "exception"@
    }) + " code 0x"@ + hex_padded(record.code as nat, 8) + " at 0x"@ + hex(record.address as nat)
        + "\n"@ + match record.module {
        Some(module) => "in "@ + module_name(module.path@) + " + 0x"@ + hex(
            (record.address - module.base) as nat,
        ) + "\n"@,
        None => Seq::empty(),
    }
}

/// What the note of a crash says.
pub open spec fn note_text(version: Seq<char>, record: Option<CrashRecord>) -> Seq<char> {
    "OpenClips "@ + version + "\n"@ + match record {
        Some(record) => place_text(record),
        None => Seq::empty(),
    }
}

/// What the note of a crash says.
pub fn crash_note(version: &str, record: &Option<CrashRecord>) -> (r: String)
    requires
        record is Some && record->0.module is Some ==> record->0.module->0.base
            <= record->0.address,
    ensures
        r@ == note_text(version@, *record),
{
    let mut text = join2("OpenClips ", version);
    text.append("\n");
    if let Some(record) = record {
        let mut place = if record.access_violation {
            "access violation".to_owned()
        } else {
            "exception".to_owned()
        };
        place.append(" code 0x");
        place.append(to_hex_padded(record.code as u64, 8).as_str());
        place.append(" at 0x");
        place.append(to_hex(record.address).as_str());
        place.append("\n");
        let mut within = String::new();
        if let Some(module) = &record.module {
            within.append("in ");
            within.append(module_file(module.path.as_str()).as_str());
            within.append(" + 0x");
            within.append(to_hex(record.address - module.base).as_str());
            within.append("\n");
            assert(within@ =~= "in "@ + module_name(module.path@) + " + 0x"@ + hex(
                (record.address - module.base) as nat,
            ) + "\n"@);
        }
        place.append(within.as_str());
        text.append(place.as_str());
    } else {
        assert(text@ =~= note_text(version@, *record));
    }
    text
}

/// The number that hexadecimal digits stand for.
pub open spec fn hex_value(s: Seq<char>) -> nat
    decreases s.len(),
{
    if s.len() == 0 {
        0
    } else {
        16 * hex_value(s.drop_last()) + (if '0' <= s.last() <= '9' {
            (s.last() as int - '0' as int) as nat
        } else {
            (s.last() as int - 'a' as int + 10) as nat
        })
    }
}

/// An address that is written is read back, digit by digit, in small letters.
pub proof fn addresses_are_read_back(n: nat)
    ensures
        hex_value(hex(n)) == n,
        hex(n).len() > 0,
        n > 0 ==> hex(n)[0] != '0',
        forall|i: int|
            0 <= i < hex(n).len() ==> ('0' <= #[trigger] hex(n)[i] <= '9' || 'a' <= hex(n)[i]
                <= 'f'),
    decreases n,
{
    if n >= 16 {
        addresses_are_read_back(n / 16);
        assert(hex(n).drop_last() =~= hex(n / 16));
        assert forall|i: int| 0 <= i < hex(n).len() implies ('0' <= #[trigger] hex(n)[i] <= '9'
            || 'a' <= hex(n)[i] <= 'f') by {
            if i < hex(n / 16).len() {
                assert(hex(n)[i] == hex(n / 16)[i]);
            }
        }
        assert(hex(n)[0] == hex(n / 16)[0]);
    } else {
        assert(hex(n).drop_last() =~= Seq::empty());
        reveal_with_fuel(hex_value, 2);
    }
}

/// A module is named without its folder, whichever way the folders are parted.
pub proof fn a_module_is_named_without_its_folder(
    folder: Seq<char>,
    separator: char,
    name: Seq<char>,
)
    requires
        separator == '/' || separator == '\\',
        forall|i: int| 0 <= i < name.len() ==> #[trigger] name[i] != '/' && name[i] != '\\',
    ensures
        module_name(folder.push(separator) + name) == name,
        module_name(name) == name,
{
    let path = folder.push(separator) + name;
    assert(path[folder.len() as int] == separator);
    crate::text::nothing_after_last(path, '/');
    crate::text::nothing_after_last(path, '\\');
    crate::text::nothing_after_last(name, '/');
    crate::text::nothing_after_last(name, '\\');
    let slash = crate::text::last_index(path, '/');
    let backslash = crate::text::last_index(path, '\\');
    assert(slash <= folder.len()) by {
        if slash > folder.len() {
            assert(path[slash] == name[slash - folder.len() - 1]);
        }
    }
    assert(backslash <= folder.len()) by {
        if backslash > folder.len() {
            assert(path[backslash] == name[backslash - folder.len() - 1]);
        }
    }
    assert(path.skip(folder.len() as int + 1) =~= name);
    assert(name.skip(0) =~= name);
}

} // verus!
