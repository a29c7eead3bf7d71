//! Handing files, folders and addresses to the desktop.
use vstd::prelude::*;

use crate::text::{chars_of, join2, starts_with};
use crate::ui::gallery::DiskSpace;

verus! {

/// The bytes of a character in UTF-8.
pub open spec fn utf8(c: char) -> Seq<u8> {
    let n = c as u32 as int;
    if n < 0x80 {
        seq![n as u8]
    } else if n < 0x800 {
        seq![(0xc0 + n / 0x40) as u8, (0x80 + n % 0x40) as u8]
    } else if n < 0x10000 {
        seq![(0xe0 + n / 0x1000) as u8, (0x80 + n / 0x40 % 0x40) as u8, (0x80 + n % 0x40) as u8]
    } else {
        seq![
            (0xf0 + n / 0x40000) as u8,
            (0x80 + n / 0x1000 % 0x40) as u8,
            (0x80 + n / 0x40 % 0x40) as u8,
            (0x80 + n % 0x40) as u8,
        ]
    }
}

/// Whether a byte stands for itself in an address.
pub open spec fn is_plain(b: u8) -> bool {
    ||| 65 <= b <= 90
    ||| 97 <= b <= 122
    ||| 48 <= b <= 57
    ||| b == 47
    ||| b == 45
    ||| b == 95
    ||| b == 46
    ||| b == 126
}

/// A hexadecimal digit in upper case.
pub open spec fn upper_hex(d: int) -> char {
    if d < 10 {
        (d + 48) as char
    } else {
        (d + 55) as char
    }
}

/// A byte in an address.
pub open spec fn escaped(b: u8) -> Seq<char> {
    if is_plain(b) {
        seq![b as char]
    } else {
        seq!['%', upper_hex(b as int / 16), upper_hex(b as int % 16)]
    }
}

/// Bytes in an address.
pub open spec fn escaped_all(bytes: Seq<u8>) -> Seq<char>
    decreases bytes.len(),
{
    if bytes.len() == 0 {
        Seq::empty()
    } else {
        escaped_all(bytes.drop_last()) + escaped(bytes.last())
    }
}

/// The bytes of a text in UTF-8.
pub open spec fn utf8_all(s: Seq<char>) -> Seq<u8>
    decreases s.len(),
{
    if s.len() == 0 {
        Seq::empty()
    } else {
        utf8_all(s.drop_last()) + utf8(s.last())
    }
}

fn upper_digit(d: u8) -> (r: char)
    requires
        d < 16,
    ensures
        r == upper_hex(d as int),
{
    if d < 10 {
        (d + 48) as char
    } else {
        (d + 55) as char
    }
}

fn encode_char(c: char) -> (r: Vec<u8>)
    ensures
        r@ == utf8(c),
{
    let n: u32 = c as u32;
    let mut out: Vec<u8> = Vec::new();
    if n < 0x80 {
        out.push(n as u8);
    } else if n < 0x800 {
        out.push((0xc0 + n / 0x40) as u8);
        out.push((0x80 + n % 0x40) as u8);
    } else if n < 0x10000 {
        out.push((0xe0 + n / 0x1000) as u8);
        out.push((0x80 + n / 0x40 % 0x40) as u8);
        out.push((0x80 + n % 0x40) as u8);
    } else {
        out.push((0xf0 + n / 0x40000) as u8);
        out.push((0x80 + n / 0x1000 % 0x40) as u8);
        out.push((0x80 + n / 0x40 % 0x40) as u8);
        out.push((0x80 + n % 0x40) as u8);
    }
    assert(out@ =~= utf8(c));
    out
}

fn push_escaped(out: &mut String, b: u8)
    ensures
        final(out)@ == old(out)@ + escaped(b),
{
    let ghost before = out@;
    if (65 <= b && b <= 90) || (97 <= b && b <= 122) || (48 <= b && b <= 57) || b == 47 || b == 45
        || b == 95 || b == 46 || b == 126 {
        out.push(b as char);
    } else {
        out.push('%');
        out.push(upper_digit(b / 16));
        out.push(upper_digit(b % 16));
    }
    assert(out@ =~= before + escaped(b));
}

proof fn escaping_goes_on(a: Seq<u8>, b: Seq<u8>)
    ensures
        escaped_all(a + b) == escaped_all(a) + escaped_all(b),
    decreases b.len(),
{
    if b.len() == 0 {
        assert(a + b =~= a);
        assert(escaped_all(a) + escaped_all(b) =~= escaped_all(a));
    } else {
        escaping_goes_on(a, b.drop_last());
        assert((a + b).drop_last() =~= a + b.drop_last());
        assert(escaped_all(a) + escaped_all(b.drop_last()) + escaped(b.last()) =~= escaped_all(a)
            + escaped_all(b));
    }
}

/// A path percent-encoded for a `file://` address, keeping the separators. A
/// comma is encoded too: it would split the argument of the call that shows
/// the file.
pub fn percent_encode(path: &str) -> (r: String)
    ensures
        r@ == escaped_all(utf8_all(path@)),
{
    let chars = chars_of(path);
    let mut out = String::new();
    let mut i: usize = 0;
    assert(utf8_all(chars@.take(0)) =~= Seq::<u8>::empty());
    assert(escaped_all(Seq::<u8>::empty()) =~= Seq::<char>::empty());
    while i < chars.len()
        invariant
            i <= chars.len(),
            out@ == escaped_all(utf8_all(chars@.take(i as int))),
        decreases chars.len() - i,
    {
        let bytes = encode_char(chars[i]);
        let ghost before = utf8_all(chars@.take(i as int));
        assert(chars@.take(i + 1).drop_last() =~= chars@.take(i as int));
        let mut k: usize = 0;
        assert(bytes@.take(0) =~= Seq::<u8>::empty());
        assert(out@ =~= escaped_all(before) + escaped_all(bytes@.take(0)));
        while k < bytes.len()
            invariant
                k <= bytes.len(),
                out@ == escaped_all(before) + escaped_all(bytes@.take(k as int)),
            decreases bytes.len() - k,
        {
            assert(bytes@.take(k + 1).drop_last() =~= bytes@.take(k as int));
            push_escaped(&mut out, bytes[k]);
            assert(out@ =~= escaped_all(before) + escaped_all(bytes@.take(k + 1)));
            k = k + 1;
        }
        proof {
            assert(bytes@.take(k as int) =~= bytes@);
            escaping_goes_on(before, bytes@);
        }
        i = i + 1;
    }
    assert(chars@.take(i as int) =~= chars@);
    out
}

/// The address of a file.
pub fn file_uri(path: &str) -> (r: String)
    ensures
        r@ == "file://"@ + escaped_all(utf8_all(path@)),
{
    join2("file://", percent_encode(path).as_str())
}

/// Whether an address is opened in the browser: web pages only.
pub fn opens_url(url: &str) -> (r: bool)
    ensures
        r == crate::text::starts_in(url@, "https://"@),
{
    starts_with(url, "https://")
}

/// The space of a drive, from its block size and block counts.
pub fn disk_space(block: u64, free_blocks: u64, blocks: u64) -> (r: DiskSpace)
    requires
        free_blocks * block <= u64::MAX,
        blocks * block <= u64::MAX,
    ensures
        r.free == free_blocks * block,
        r.total == blocks * block,
{
    DiskSpace { free: free_blocks * block, total: blocks * block }
}

proof fn escaped_is_safe(bytes: Seq<u8>)
    ensures
        forall|i: int|
            0 <= i < escaped_all(bytes).len() ==> is_address_char(#[trigger] escaped_all(bytes)[i]),
    decreases bytes.len(),
{
    if bytes.len() > 0 {
        escaped_is_safe(bytes.drop_last());
        let b = bytes.last();
        assert forall|i: int| 0 <= i < escaped(b).len() implies is_address_char(
            #[trigger] escaped(b)[i],
        ) by {
            if !is_plain(b) {
                assert(0 <= b as int / 16 < 16);
            }
        }
        let front = escaped_all(bytes.drop_last());
        assert forall|i: int| 0 <= i < escaped_all(bytes).len() implies is_address_char(
            #[trigger] escaped_all(bytes)[i],
        ) by {
            if i < front.len() {
                assert(escaped_all(bytes)[i] == front[i]);
            } else {
                assert(escaped_all(bytes)[i] == escaped(b)[i - front.len()]);
            }
        }
    }
}

/// Whether a character may stand in an encoded path.
pub open spec fn is_address_char(c: char) -> bool {
    (c as u32) < 0x80 && c != ',' && c != ' ' && c != '"' && c != '\''
}

/// An encoded path holds nothing that would end or split the argument that it
/// is part of.
pub proof fn an_encoded_path_is_one_argument(path: Seq<char>)
    ensures
        forall|i: int|
            0 <= i < escaped_all(utf8_all(path)).len() ==> is_address_char(
                #[trigger] escaped_all(utf8_all(path))[i],
            ),
{
    escaped_is_safe(utf8_all(path));
}

/// Paths are encoded piece by piece.
pub proof fn paths_are_encoded_piece_by_piece(a: Seq<char>, b: Seq<char>)
    ensures
        escaped_all(utf8_all(a + b)) == escaped_all(utf8_all(a)) + escaped_all(utf8_all(b)),
{
    bytes_go_on(a, b);
    escaping_goes_on(utf8_all(a), utf8_all(b));
}

proof fn bytes_go_on(a: Seq<char>, b: Seq<char>)
    ensures
        utf8_all(a + b) == utf8_all(a) + utf8_all(b),
    decreases b.len(),
{
    if b.len() > 0 {
        assert((a + b).drop_last() =~= a + b.drop_last());
        bytes_go_on(a, b.drop_last());
        assert(utf8_all(a + b) =~= utf8_all(a) + utf8_all(b));
    } else {
        assert(a + b =~= a);
        assert(utf8_all(a) + utf8_all(b) =~= utf8_all(a));
    }
}

/// Letters, digits and the marks `/`, `-`, `_`, `.` and `~` stand for themselves;
/// any other byte is a percent sign and its two digits.
pub proof fn only_safe_characters_stand_for_themselves(c: char)
    requires
        (c as u32) < 0x80,
    ensures
        ({
            let text = escaped_all(utf8_all(seq![c]));
            if 'a' <= c <= 'z' || 'A' <= c <= 'Z' || '0' <= c <= '9' || c == '/' || c == '-' || c
                == '_' || c == '.' || c == '~' {
                text == seq![c]
            } else {
                &&& text.len() == 3
                &&& text[0] == '%'
                &&& 16 * digit_of(text[1]) + digit_of(text[2]) == c as u32
            }
        }),
{
    let bytes = utf8_all(seq![c]);
    reveal_with_fuel(utf8_all, 2);
    reveal_with_fuel(escaped_all, 2);
    assert(seq![c].drop_last() =~= Seq::empty());
    assert(bytes =~= seq![c as u32 as u8]);
    assert(bytes.drop_last() =~= Seq::empty());
    assert(escaped_all(bytes) =~= escaped(bytes[0]));
}

/// The value of a hexadecimal digit in upper case.
pub open spec fn digit_of(c: char) -> int {
    if '0' <= c <= '9' {
        c as int - '0' as int
    } else {
        c as int - 'A' as int + 10
    }
}

/// The bytes of a character hold its number: the first byte tells how many follow,
/// and each of those holds six bits more.
pub proof fn the_bytes_of_a_character_hold_its_number(c: char)
    ensures
        ({
            let n = c as u32 as int;
            let b = utf8(c);
            if n < 0x80 {
                b.len() == 1 && b[0] == n
            } else if n < 0x800 {
                &&& b.len() == 2
                &&& 0xc0 <= b[0] < 0xe0 && 0x80 <= b[1] < 0xc0
                &&& n == (b[0] - 0xc0) * 0x40 + (b[1] - 0x80)
            } else if n < 0x10000 {
                &&& b.len() == 3
                &&& 0xe0 <= b[0] < 0xf0 && 0x80 <= b[1] < 0xc0 && 0x80 <= b[2] < 0xc0
                &&& n == (b[0] - 0xe0) * 0x1000 + (b[1] - 0x80) * 0x40 + (b[2] - 0x80)
            } else {
                &&& b.len() == 4
                &&& 0xf0 <= b[0] < 0xf8 && 0x80 <= b[1] < 0xc0 && 0x80 <= b[2] < 0xc0 && 0x80
                    <= b[3] < 0xc0
                &&& n == (b[0] - 0xf0) * 0x40000 + (b[1] - 0x80) * 0x1000 + (b[2] - 0x80) * 0x40
                    + (b[3] - 0x80)
            }
        }),
{
}

/// A text counts as many bytes as it has in UTF-8.
pub proof fn bytes_are_counted_in_utf8(s: Seq<char>)
    ensures
        crate::text::byte_count(s) == utf8_all(s).len(),
    decreases s.len(),
{
    if s.len() > 0 {
        bytes_are_counted_in_utf8(s.drop_last());
        the_bytes_of_a_character_hold_its_number(s.last());
    }
}

} // verus!
