//! Text helpers over the characters of a string.
use vstd::prelude::*;

verus! {

/// `String::push`: appends one character at the end.
pub assume_specification[ String::push ](s: &mut String, c: char)
    ensures
        final(s)@ == old(s)@.push(c),
;

/// The character of a decimal digit.
pub open spec fn digit_char(d: int) -> char {
    (48 + d) as char
}

/// A number in decimal, without leading zeros.
pub open spec fn dec(n: nat) -> Seq<char>
    decreases n,
{
    if n < 10 {
        seq![digit_char(n as int)]
    } else {
        dec(n / 10).push(digit_char((n % 10) as int))
    }
}

/// `s` with `0` in front of it until it is `width` long.
pub open spec fn zero_padded(s: Seq<char>, width: nat) -> Seq<char> {
    if s.len() >= width {
        s
    } else {
        Seq::new((width - s.len()) as nat, |i: int| '0') + s
    }
}

/// A signed number in decimal.
pub open spec fn signed_dec(n: int) -> Seq<char> {
    if n < 0 {
        seq!['-'] + dec((-n) as nat)
    } else {
        dec(n as nat)
    }
}

fn digit(d: u64) -> (c: char)
    requires
        d < 10,
    ensures
        c == digit_char(d as int),
{
    match d {
        0 => '0',
        1 => '1',
        2 => '2',
        3 => '3',
        4 => '4',
        5 => '5',
        6 => '6',
        7 => '7',
        8 => '8',
        _ => '9',
    }
}

/// Writes `n` in decimal.
pub fn decimal(n: u64) -> (r: String)
    ensures
        r@ == dec(n as nat),
    decreases n,
{
    if n < 10 {
        let mut s = String::new();
        s.push(digit(n));
        assert(s@ =~= dec(n as nat));
        s
    } else {
        let mut s = decimal(n / 10);
        s.push(digit(n % 10));
        s
    }
}

/// Writes `n` in decimal with a sign when it is negative.
pub fn signed_decimal(n: i64) -> (r: String)
    ensures
        r@ == signed_dec(n as int),
{
    if n < 0 {
        let magnitude: u64 = if n == i64::MIN {
            0x8000_0000_0000_0000
        } else {
            (-n) as u64
        };
        let mut s = String::new();
        s.push('-');
        s.append(decimal(magnitude).as_str());
        assert(s@ =~= signed_dec(n as int));
        s
    } else {
        decimal(n as u64)
    }
}

/// Writes `n` in decimal, at least `width` digits long.
pub fn padded(n: u64, width: usize) -> (r: String)
    ensures
        r@ == zero_padded(dec(n as nat), width as nat),
{
    let digits = decimal(n);
    let count: usize = digits.as_str().unicode_len();
    let mut out = String::new();
    let mut i: usize = count;
    while i < width
        invariant
            count == digits@.len(),
            count <= i <= width || (i == count && width <= count),
            out@ == Seq::new((i - count) as nat, |k: int| '0'),
        decreases width - i,
    {
        out.push('0');
        i = i + 1;
        assert(out@ =~= Seq::new((i - count) as nat, |k: int| '0'));
    }
    out.append(digits.as_str());
    assert(out@ =~= zero_padded(dec(n as nat), width as nat));
    out
}

/// The characters of a string.
pub fn chars_of(s: &str) -> (r: Vec<char>)
    ensures
        r@ == s@,
{
    let mut out: Vec<char> = Vec::new();
    for c in iter: s.chars()
        invariant
            iter.seq() == s@,
            out@ == s@.take(iter.index() as int),
    {
        out.push(c);
        assert(s@.take(iter.index() + 1) =~= s@.take(iter.index() as int).push(c));
    }
    assert(s@.take(s@.len() as int) =~= s@);
    out
}

/// The string made of the given characters.
pub fn string_of(chars: &[char]) -> (r: String)
    ensures
        r@ == chars@,
{
    let mut out = String::new();
    let mut i: usize = 0;
    while i < chars.len()
        invariant
            i <= chars.len(),
            out@ == chars@.take(i as int),
        decreases chars.len() - i,
    {
        out.push(chars[i]);
        i = i + 1;
        assert(chars@.take(i as int) =~= chars@.take(i - 1).push(chars@[i - 1]));
    }
    assert(chars@.take(chars@.len() as int) =~= chars@);
    out
}

/// The characters from `from` up to `to`, as a string.
pub fn slice_of(chars: &[char], from: usize, to: usize) -> (r: String)
    requires
        from <= to <= chars.len(),
    ensures
        r@ == chars@.subrange(from as int, to as int),
{
    let mut out = String::new();
    let mut i: usize = from;
    while i < to
        invariant
            from <= i <= to <= chars.len(),
            out@ == chars@.subrange(from as int, i as int),
        decreases to - i,
    {
        out.push(chars[i]);
        i = i + 1;
        assert(chars@.subrange(from as int, i as int) =~= chars@.subrange(
            from as int,
            i - 1,
        ).push(chars@[i - 1]));
    }
    out
}

/// Whether two texts are the same.
pub fn same(a: &str, b: &str) -> (r: bool)
    ensures
        r == (a@ == b@),
{
    a.to_owned() == b.to_owned()
}

/// Two texts, one behind the other.
pub fn join2(a: &str, b: &str) -> (r: String)
    ensures
        r@ == a@ + b@,
{
    let mut s = a.to_owned();
    s.append(b);
    s
}

/// Three texts, one behind the other.
pub fn join3(a: &str, b: &str, c: &str) -> (r: String)
    ensures
        r@ == a@ + b@ + c@,
{
    let mut s = a.to_owned();
    s.append(b);
    s.append(c);
    s
}

/// What a list of strings says.
pub open spec fn views(list: Seq<String>) -> Seq<Seq<char>> {
    list.map_values(|s: String| s@)
}

/// Whether the list holds the text.
pub fn list_contains(list: &Vec<String>, text: &str) -> (r: bool)
    ensures
        r == views(list@).contains(text@),
{
    let mut i: usize = 0;
    while i < list.len()
        invariant
            i <= list.len(),
            forall|k: int| 0 <= k < i ==> views(list@)[k] != text@,
        decreases list.len() - i,
    {
        if same(list[i].as_str(), text) {
            assert(views(list@)[i as int] == text@);
            return true;
        }
        i = i + 1;
    }
    false
}

/// The place of the last `c`, or -1.
pub open spec fn last_index(s: Seq<char>, c: char) -> int
    decreases s.len(),
{
    if s.len() == 0 {
        -1
    } else if s.last() == c {
        s.len() - 1
    } else {
        last_index(s.drop_last(), c)
    }
}

/// Behind the place of the last `c` there is no `c`.
pub proof fn nothing_after_last(s: Seq<char>, c: char)
    ensures
        -1 <= last_index(s, c) < s.len(),
        last_index(s, c) >= 0 ==> s[last_index(s, c)] == c,
        forall|k: int| last_index(s, c) < k < s.len() ==> s[k] != c,
    decreases s.len(),
{
    if s.len() > 0 && s.last() != c {
        nothing_after_last(s.drop_last(), c);
        assert forall|k: int| last_index(s, c) < k < s.len() implies s[k] != c by {
            if k < s.len() - 1 {
                assert(s.drop_last()[k] != c);
            }
        }
    }
}

/// The place of the last `c`.
pub fn find_last(chars: &[char], c: char) -> (r: Option<usize>)
    ensures
        match r {
            Some(i) => i == last_index(chars@, c) && i < chars.len() && chars@[i as int] == c,
            None => last_index(chars@, c) == -1,
        },
{
    let mut i: usize = chars.len();
    assert(chars@.take(i as int) =~= chars@);
    while i > 0
        invariant
            i <= chars.len(),
            last_index(chars@, c) == last_index(chars@.take(i as int), c),
        decreases i,
    {
        assert(chars@.take(i as int).drop_last() =~= chars@.take(i - 1));
        if chars[i - 1] == c {
            return Some(i - 1);
        }
        i = i - 1;
    }
    None
}

/// Whether `pattern` stands at place `i` of `s`.
pub open spec fn stands_at(s: Seq<char>, pattern: Seq<char>, i: int) -> bool {
    0 <= i && i + pattern.len() <= s.len() && s.subrange(i, i + pattern.len()) == pattern
}

/// The last place up to `i` at which `pattern` stands in `s`, or -1.
pub open spec fn rfind_up_to(s: Seq<char>, pattern: Seq<char>, i: int) -> int
    decreases i + 1,
{
    if i < 0 {
        -1
    } else if stands_at(s, pattern, i) {
        i
    } else {
        rfind_up_to(s, pattern, i - 1)
    }
}

/// The last place at which `pattern` stands in `s`, or -1.
pub open spec fn rfind(s: Seq<char>, pattern: Seq<char>) -> int {
    rfind_up_to(s, pattern, s.len() - pattern.len())
}

/// Whether `pattern` stands at place `i`.
pub fn is_at(chars: &[char], pattern: &[char], i: usize) -> (r: bool)
    ensures
        r == stands_at(chars@, pattern@, i as int),
{
    if i > chars.len() || pattern.len() > chars.len() - i {
        return false;
    }
    let mut k: usize = 0;
    while k < pattern.len()
        invariant
            k <= pattern.len(),
            i + pattern.len() <= chars.len(),
            forall|j: int| 0 <= j < k ==> chars@[i + j] == pattern@[j],
        decreases pattern.len() - k,
    {
        if chars[i + k] != pattern[k] {
            assert(chars@.subrange(i as int, i + pattern@.len())[k as int] != pattern@[k as int]);
            return false;
        }
        k = k + 1;
    }
    assert(chars@.subrange(i as int, i + pattern@.len()) =~= pattern@);
    true
}

/// The last place at which `pattern` stands.
pub fn find_last_text(chars: &[char], pattern: &[char]) -> (r: Option<usize>)
    ensures
        match r {
            Some(i) => i == rfind(chars@, pattern@) && stands_at(chars@, pattern@, i as int),
            None => rfind(chars@, pattern@) == -1,
        },
{
    if pattern.len() > chars.len() {
        return None;
    }
    let mut i: usize = chars.len() - pattern.len();
    loop
        invariant
            pattern.len() <= chars.len(),
            i <= chars.len() - pattern.len(),
            rfind(chars@, pattern@) == rfind_up_to(chars@, pattern@, i as int),
        decreases i,
    {
        if is_at(chars, pattern, i) {
            return Some(i);
        }
        if i == 0 {
            assert(rfind_up_to(chars@, pattern@, -1) == -1);
            return None;
        }
        i = i - 1;
    }
}

/// Whether a character is a decimal digit.
pub open spec fn is_digit(c: char) -> bool {
    '0' <= c <= '9'
}

/// Whether all characters from `from` up to `to` are decimal digits.
pub fn all_digits(chars: &[char], from: usize, to: usize) -> (r: bool)
    requires
        from <= to <= chars.len(),
    ensures
        r == (forall|i: int| from <= i < to ==> is_digit(#[trigger] chars@[i])),
{
    let mut i: usize = from;
    while i < to
        invariant
            from <= i <= to <= chars.len(),
            forall|k: int| from <= k < i ==> is_digit(#[trigger] chars@[k]),
        decreases to - i,
    {
        let c = chars[i];
        if !('0' <= c && c <= '9') {
            assert(!is_digit(chars@[i as int]));
            return false;
        }
        i = i + 1;
    }
    true
}

/// Whether a character is white space in Unicode.
pub open spec fn is_white(c: char) -> bool {
    ||| 0x9 <= c as int <= 0xd
    ||| c as int == 0x20
    ||| c as int == 0x85
    ||| c as int == 0xa0
    ||| c as int == 0x1680
    ||| 0x2000 <= c as int <= 0x200a
    ||| c as int == 0x2028
    ||| c as int == 0x2029
    ||| c as int == 0x202f
    ||| c as int == 0x205f
    ||| c as int == 0x3000
}

fn is_white_space(c: char) -> (r: bool)
    ensures
        r == is_white(c),
{
    let n: u32 = c as u32;
    (0x9 <= n && n <= 0xd) || n == 0x20 || n == 0x85 || n == 0xa0 || n == 0x1680 || (0x2000 <= n
        && n <= 0x200a) || n == 0x2028 || n == 0x2029 || n == 0x202f || n == 0x205f || n == 0x3000
}

/// `s` without the white space in front.
pub open spec fn trim_front(s: Seq<char>) -> Seq<char>
    decreases s.len(),
{
    if s.len() > 0 && is_white(s.first()) {
        trim_front(s.drop_first())
    } else {
        s
    }
}

/// `s` without the white space at the end.
pub open spec fn trim_back(s: Seq<char>) -> Seq<char>
    decreases s.len(),
{
    if s.len() > 0 && is_white(s.last()) {
        trim_back(s.drop_last())
    } else {
        s
    }
}

/// `s` without the white space around it.
pub open spec fn trimmed(s: Seq<char>) -> Seq<char> {
    trim_back(trim_front(s))
}

/// The text without the white space around it.
pub fn trim(s: &str) -> (r: String)
    ensures
        r@ == trimmed(s@),
{
    let chars = chars_of(s);
    let mut from: usize = 0;
    assert(chars@.skip(0) =~= chars@);
    while from < chars.len() && is_white_space(chars[from])
        invariant
            from <= chars.len(),
            trim_front(chars@) == trim_front(chars@.skip(from as int)),
        decreases chars.len() - from,
    {
        assert(chars@.skip(from as int).drop_first() =~= chars@.skip(from + 1));
        from = from + 1;
    }
    assert(trim_front(chars@) == chars@.skip(from as int));
    let mut to: usize = chars.len();
    assert(chars@.subrange(from as int, to as int) =~= chars@.skip(from as int));
    while to > from && is_white_space(chars[to - 1])
        invariant
            from <= to <= chars.len(),
            trimmed(chars@) == trim_back(chars@.subrange(from as int, to as int)),
        decreases to,
    {
        assert(chars@.subrange(from as int, to as int).drop_last() =~= chars@.subrange(
            from as int,
            to - 1,
        ));
        to = to - 1;
    }
    slice_of(chars.as_slice(), from, to)
}

/// Whether a text holds nothing but small ASCII letters and digits.
pub open spec fn is_plain(s: Seq<char>) -> bool {
    forall|i: int|
        0 <= i < s.len() ==> 'a' <= #[trigger] s[i] <= 'z' || '0' <= s[i] <= '9'
}

/// A text in lower case, by the rules of Unicode.
pub uninterp spec fn lowercase(s: Seq<char>) -> Seq<char>;

/// `str::to_lowercase`: the text in lower case. Which characters change, and
/// into what, is the Unicode table behind the function; it depends on the
/// text alone. Of ASCII it says that no capital is left and that small letters
/// and digits stay as they are.
#[verifier::external_body]
pub(crate) fn to_lowercase(s: &str) -> (r: String)
    ensures
        r@ == lowercase(s@),
        forall|i: int| 0 <= i < r@.len() ==> !('A' <= #[trigger] r@[i] <= 'Z'),
        is_plain(s@) ==> r@ == s@,
{
    s.to_lowercase()
}

/// A text in upper case, by the rules of Unicode.
pub uninterp spec fn uppercase(s: Seq<char>) -> Seq<char>;

/// `str::to_uppercase`: the text in upper case. Which characters change, and
/// into what, is the Unicode table behind the function; it depends on the
/// text alone.
#[verifier::external_body]
pub(crate) fn to_uppercase(s: &str) -> (r: String)
    ensures
        r@ == uppercase(s@),
{
    s.to_uppercase()
}

/// The pieces of a text between the characters that are `c`.
pub open spec fn split_at_char(s: Seq<char>, c: char) -> Seq<Seq<char>>
    decreases s.len(),
{
    let i = last_index(s, c);
    if i < 0 || i >= s.len() {
        seq![s]
    } else {
        split_at_char(s.take(i), c).push(s.skip(i + 1))
    }
}

/// A text has a first piece, which is not longer than the text.
pub proof fn there_is_a_first_piece(s: Seq<char>, c: char)
    ensures
        split_at_char(s, c).len() >= 1,
        split_at_char(s, c)[0].len() <= s.len(),
    decreases s.len(),
{
    let i = last_index(s, c);
    if 0 <= i < s.len() {
        there_is_a_first_piece(s.take(i), c);
    }
}

/// The pieces of a text between the characters that are `c`.
pub fn split(s: &str, c: char) -> (r: Vec<String>)
    ensures
        views(r@) == split_at_char(s@, c),
{
    let chars = chars_of(s);
    let r = split_chars(chars.as_slice(), c, chars.len());
    assert(chars@.take(chars@.len() as int) =~= s@);
    r
}

fn split_chars(chars: &[char], c: char, end: usize) -> (r: Vec<String>)
    requires
        end <= chars.len(),
    ensures
        views(r@) == split_at_char(chars@.take(end as int), c),
    decreases end,
{
    let ghost s = chars@.take(end as int);
    let mut i: usize = end;
    while i > 0 && chars[i - 1] != c
        invariant
            i <= end <= chars.len(),
            s == chars@.take(end as int),
            forall|k: int| i <= k < end ==> chars@[k] != c,
        decreases i,
    {
        i = i - 1;
    }
    proof {
        nothing_after_last(s, c);
    }
    let piece = slice_of(chars, i, end);
    if i == 0 {
        let mut out: Vec<String> = Vec::new();
        assert(piece@ =~= s);
        out.push(piece);
        assert(views(out@) =~= seq![s]);
        out
    } else {
        assert(s[i - 1] == c);
        assert(last_index(s, c) == i - 1);
        assert(s.take(i - 1) =~= chars@.take(i - 1));
        assert(s.skip(i as int) =~= piece@);
        let mut out = split_chars(chars, c, i - 1);
        let ghost before = views(out@);
        out.push(piece);
        assert(views(out@) =~= before.push(piece@));
        out
    }
}

/// The texts of a list with `separator` between them.
pub open spec fn joined(list: Seq<Seq<char>>, separator: Seq<char>) -> Seq<char>
    decreases list.len(),
{
    if list.len() == 0 {
        Seq::empty()
    } else if list.len() == 1 {
        list[0]
    } else {
        joined(list.drop_last(), separator) + separator + list.last()
    }
}

/// The texts of a list with `separator` between them.
pub fn join(list: &Vec<String>, separator: &str) -> (r: String)
    ensures
        r@ == joined(views(list@), separator@),
{
    let mut out = String::new();
    let mut i: usize = 0;
    assert(views(list@).take(0) =~= Seq::empty());
    while i < list.len()
        invariant
            i <= list.len(),
            out@ == joined(views(list@).take(i as int), separator@),
        decreases list.len() - i,
    {
        let ghost part = views(list@).take(i + 1);
        assert(part.drop_last() =~= views(list@).take(i as int));
        if i > 0 {
            out.append(separator);
        }
        out.append(list[i].as_str());
        proof {
            if i == 0 {
                assert(out@ =~= list@[0]@);
            }
        }
        i = i + 1;
    }
    assert(views(list@).take(list@.len() as int) =~= views(list@));
    out
}

/// Different numbers are written differently.
pub proof fn dec_is_injective(a: nat, b: nat)
    requires
        dec(a) == dec(b),
    ensures
        a == b,
    decreases a,
{
    dec_is_digits(a);
    dec_is_digits(b);
    let da = (a % 10) as int;
    let db = (b % 10) as int;
    assert(dec(a).last() == digit_char(da));
    assert(dec(b).last() == digit_char(db));
    assert(digit_char(da) as int == 48 + da && digit_char(db) as int == 48 + db);
    if a < 10 {
        if b >= 10 {
            dec_is_digits(b / 10);
            assert(dec(b).len() >= 2);
        }
    } else if b < 10 {
        dec_is_digits(a / 10);
        assert(dec(a).len() >= 2);
    } else {
        assert(dec(a).drop_last() =~= dec(a / 10));
        assert(dec(b).drop_last() =~= dec(b / 10));
        dec_is_injective(a / 10, b / 10);
    }
}

/// A written number is not empty and holds only digits.
pub proof fn dec_is_digits(n: nat)
    ensures
        dec(n).len() >= 1,
        forall|i: int| 0 <= i < dec(n).len() ==> is_digit(#[trigger] dec(n)[i]),
    decreases n,
{
    if n >= 10 {
        dec_is_digits(n / 10);
    }
}

/// Whether `a` comes before `b` in the order of their characters.
pub open spec fn lex_less(a: Seq<char>, b: Seq<char>) -> bool
    decreases a.len(),
{
    if b.len() == 0 {
        false
    } else if a.len() == 0 {
        true
    } else if a[0] != b[0] {
        a[0] < b[0]
    } else {
        lex_less(a.drop_first(), b.drop_first())
    }
}

/// Whether `a` comes before `b` in the order of their characters.
pub fn comes_before(a: &str, b: &str) -> (r: bool)
    ensures
        r == lex_less(a@, b@),
{
    let x = chars_of(a);
    let y = chars_of(b);
    let mut i: usize = 0;
    assert(a@.skip(0) =~= a@ && b@.skip(0) =~= b@);
    while i < x.len() && i < y.len() && x[i] == y[i]
        invariant
            x@ == a@,
            y@ == b@,
            i <= x.len(),
            i <= y.len(),
            lex_less(a@, b@) == lex_less(a@.skip(i as int), b@.skip(i as int)),
        decreases x.len() - i,
    {
        assert(a@.skip(i as int).drop_first() =~= a@.skip(i + 1));
        assert(b@.skip(i as int).drop_first() =~= b@.skip(i + 1));
        i = i + 1;
    }
    if i >= y.len() {
        false
    } else if i >= x.len() {
        true
    } else {
        x[i] < y[i]
    }
}

/// The order of texts is strict.
pub proof fn lex_is_strict(a: Seq<char>)
    ensures
        !lex_less(a, a),
    decreases a.len(),
{
    if a.len() > 0 {
        lex_is_strict(a.drop_first());
    }
}

/// The order of texts is total.
pub proof fn lex_is_total(a: Seq<char>, b: Seq<char>)
    ensures
        lex_less(a, b) || lex_less(b, a) || a == b,
        !(lex_less(a, b) && lex_less(b, a)),
    decreases a.len(),
{
    if a.len() == 0 || b.len() == 0 {
        assert(a.len() == 0 && b.len() == 0 ==> a =~= b);
    } else if a[0] == b[0] {
        lex_is_total(a.drop_first(), b.drop_first());
        if a.drop_first() == b.drop_first() {
            assert(a =~= seq![a[0]] + a.drop_first());
            assert(b =~= seq![b[0]] + b.drop_first());
        }
    }
}

/// The order of texts is transitive.
pub proof fn lex_is_transitive(a: Seq<char>, b: Seq<char>, c: Seq<char>)
    requires
        lex_less(a, b),
        lex_less(b, c),
    ensures
        lex_less(a, c),
    decreases a.len(),
{
    if a.len() > 0 && a[0] == b[0] && b[0] == c[0] {
        lex_is_transitive(a.drop_first(), b.drop_first(), c.drop_first());
    }
}

/// A character in lower case, if it is an ASCII letter.
pub open spec fn ascii_lower_char(c: char) -> char {
    if 'A' <= c <= 'Z' {
        (c as int + 32) as char
    } else {
        c
    }
}

/// A text with its ASCII letters in lower case.
pub open spec fn ascii_lower(s: Seq<char>) -> Seq<char> {
    s.map_values(|c: char| ascii_lower_char(c))
}

fn lower_ascii_char(c: char) -> (r: char)
    ensures
        r == ascii_lower_char(c),
{
    if 'A' <= c && c <= 'Z' {
        ((c as u8) + 32) as char
    } else {
        c
    }
}

/// A text with its ASCII letters in lower case.
pub fn to_ascii_lower(s: &str) -> (r: String)
    ensures
        r@ == ascii_lower(s@),
{
    let chars = chars_of(s);
    let mut out = String::new();
    let mut i: usize = 0;
    while i < chars.len()
        invariant
            chars@ == s@,
            i <= chars.len(),
            out@ == ascii_lower(s@).take(i as int),
        decreases chars.len() - i,
    {
        out.push(lower_ascii_char(chars[i]));
        i = i + 1;
        assert(ascii_lower(s@).take(i as int) =~= ascii_lower(s@).take(i - 1).push(
            ascii_lower(s@)[i - 1],
        ));
    }
    assert(ascii_lower(s@).take(i as int) =~= ascii_lower(s@));
    out
}

/// Whether a text ends with another.
pub open spec fn ends_in(s: Seq<char>, tail: Seq<char>) -> bool {
    stands_at(s, tail, s.len() - tail.len())
}

/// Whether a text ends with another.
pub fn ends_with(s: &str, tail: &str) -> (r: bool)
    ensures
        r == ends_in(s@, tail@),
{
    let a = chars_of(s);
    let b = chars_of(tail);
    a.len() >= b.len() && is_at(a.as_slice(), b.as_slice(), a.len() - b.len())
}

/// Whether a text starts with another.
pub open spec fn starts_in(s: Seq<char>, head: Seq<char>) -> bool {
    stands_at(s, head, 0)
}

/// Whether a text starts with another.
pub fn starts_with(s: &str, head: &str) -> (r: bool)
    ensures
        r == starts_in(s@, head@),
{
    let a = chars_of(s);
    let b = chars_of(head);
    is_at(a.as_slice(), b.as_slice(), 0)
}

/// A text without another at its start, however often it stands there.
pub open spec fn without_prefix(s: Seq<char>, head: Seq<char>) -> Seq<char>
    decreases s.len(),
{
    if head.len() > 0 && stands_at(s, head, 0) {
        without_prefix(s.skip(head.len() as int), head)
    } else {
        s
    }
}

/// A text without another at its start, however often it stands there.
pub fn trim_prefix(s: &str, head: &str) -> (r: String)
    requires
        head@.len() > 0,
    ensures
        r@ == without_prefix(s@, head@),
{
    let chars = chars_of(s);
    let front = chars_of(head);
    let n: usize = front.len();
    let mut from: usize = 0;
    assert(chars@.skip(0) =~= s@);
    while is_at(chars.as_slice(), front.as_slice(), from)
        invariant
            n == front.len() > 0,
            front@ == head@,
            chars@ == s@,
            from <= chars.len(),
            without_prefix(s@, head@) == without_prefix(s@.skip(from as int), head@),
        decreases chars.len() - from,
    {
        let ghost t = s@.skip(from as int);
        assert(t.subrange(0, n as int) =~= s@.subrange(from as int, from + n));
        assert(t.skip(n as int) =~= s@.skip(from + n));
        from = from + n;
    }
    proof {
        let t = s@.skip(from as int);
        if n <= t.len() {
            assert(t.subrange(0, n as int) =~= s@.subrange(from as int, from + n));
        }
    }
    let r = slice_of(chars.as_slice(), from, chars.len());
    assert(r@ =~= s@.skip(from as int));
    r
}

/// The number that a text of digits writes.
pub open spec fn digits_value(s: Seq<char>) -> nat
    decreases s.len(),
{
    if s.len() == 0 {
        0
    } else {
        digits_value(s.drop_last()) * 10 + (s.last() as nat - 48) as nat
    }
}

/// The digits of a written number: what follows a plus sign, or all of it.
pub open spec fn digits_of(s: Seq<char>) -> Seq<char> {
    if s.len() > 0 && s[0] == '+' {
        s.drop_first()
    } else {
        s
    }
}

/// The number that a text writes in decimal, if it writes one of at most
/// `max`.
pub open spec fn number_of(s: Seq<char>, max: nat) -> Option<nat> {
    let digits = digits_of(s);
    if digits.len() > 0 && (forall|i: int| 0 <= i < digits.len() ==> is_digit(#[trigger] digits[i]))
        && digits_value(digits) <= max {
        Some(digits_value(digits))
    } else {
        None
    }
}

proof fn digits_value_grows(s: Seq<char>, i: int)
    requires
        0 <= i <= s.len(),
        forall|k: int| 0 <= k < s.len() ==> is_digit(#[trigger] s[k]),
    ensures
        digits_value(s.take(i)) <= digits_value(s),
    decreases s.len() - i,
{
    if i < s.len() {
        assert(s.take(i + 1).drop_last() =~= s.take(i));
        digits_value_grows(s, i + 1);
    } else {
        assert(s.take(i) =~= s);
    }
}

/// The number that a text writes in decimal, if it writes one that fits.
pub fn parse_u32(s: &str) -> (r: Option<u32>)
    ensures
        match r {
            Some(n) => number_of(s@, u32::MAX as nat) == Some(n as nat),
            None => number_of(s@, u32::MAX as nat) is None,
        },
{
    let chars = chars_of(s);
    let from: usize = if chars.len() > 0 && chars[0] == '+' {
        1
    } else {
        0
    };
    let ghost digits = digits_of(s@);
    assert(digits =~= chars@.skip(from as int));
    if from == chars.len() {
        return None;
    }
    let mut value: u64 = 0;
    let mut i: usize = from;
    assert(digits.take(0) =~= Seq::<char>::empty());
    while i < chars.len()
        invariant
            from <= i <= chars.len(),
            digits == digits_of(s@),
            digits == chars@.skip(from as int),
            value == digits_value(digits.take(i - from)),
            value <= u32::MAX,
            forall|k: int| 0 <= k < i - from ==> is_digit(#[trigger] digits[k]),
        decreases chars.len() - i,
    {
        let c = chars[i];
        if !('0' <= c && c <= '9') {
            assert(!is_digit(digits[i - from]));
            return None;
        }
        value = value * 10 + (c as u64 - 48);
        i = i + 1;
        assert(digits.take(i - from).drop_last() =~= digits.take(i - 1 - from));
        if value > 0xffff_ffff {
            proof {
                if forall|k: int| 0 <= k < digits.len() ==> is_digit(#[trigger] digits[k]) {
                    digits_value_grows(digits, i - from);
                }
            }
            return None;
        }
    }
    assert(digits.take(i - from) =~= digits);
    Some(value as u32)
}

/// Whether a text holds another somewhere.
pub open spec fn holds(s: Seq<char>, part: Seq<char>) -> bool {
    exists|i: int| stands_at(s, part, i)
}

/// Whether a text holds another somewhere.
pub fn contains(s: &str, part: &str) -> (r: bool)
    ensures
        r == holds(s@, part@),
{
    let a = chars_of(s);
    let b = chars_of(part);
    let mut i: usize = 0;
    while i <= a.len()
        invariant
            a@ == s@,
            b@ == part@,
            i <= a.len() + 1,
            forall|k: int| 0 <= k < i ==> !stands_at(s@, part@, k),
        decreases a.len() + 1 - i,
    {
        if is_at(a.as_slice(), b.as_slice(), i) {
            return true;
        }
        if i == a.len() {
            return false;
        }
        i = i + 1;
    }
    false
}

/// A text with every occurrence of `pattern` replaced by `by`, taken from the
/// left without overlap.
pub open spec fn replaced(s: Seq<char>, pattern: Seq<char>, by: Seq<char>) -> Seq<char>
    decreases s.len(),
{
    if pattern.len() == 0 || s.len() == 0 {
        s
    } else if stands_at(s, pattern, 0) {
        by + replaced(s.skip(pattern.len() as int), pattern, by)
    } else {
        seq![s[0]] + replaced(s.skip(1), pattern, by)
    }
}

/// Replaces every occurrence of `pattern` by `by`.
pub fn replace(s: &str, pattern: &str, by: &str) -> (r: String)
    requires
        pattern@.len() > 0,
    ensures
        r@ == replaced(s@, pattern@, by@),
{
    let chars = chars_of(s);
    let wanted = chars_of(pattern);
    let mut out = String::new();
    let mut i: usize = 0;
    assert(chars@.skip(0) =~= chars@);
    assert(out@ + replaced(chars@.skip(0), wanted@, by@) =~= replaced(chars@, wanted@, by@));
    while i < chars.len()
        invariant
            i <= chars.len(),
            wanted@ == pattern@,
            wanted.len() > 0,
            out@ + replaced(chars@.skip(i as int), wanted@, by@) == replaced(
                chars@,
                wanted@,
                by@,
            ),
        decreases chars.len() - i,
    {
        let ghost rest = chars@.skip(i as int);
        let found = is_at(chars.as_slice(), wanted.as_slice(), i);
        assert(found == stands_at(rest, wanted@, 0)) by {
            if i + wanted.len() <= chars.len() {
                assert(rest.subrange(0, wanted.len() as int) =~= chars@.subrange(
                    i as int,
                    i + wanted.len(),
                ));
            }
        }
        let ghost before = out@;
        if found {
            out.append(by);
            assert(rest.skip(wanted.len() as int) =~= chars@.skip(i + wanted.len()));
            assert(out@ + replaced(chars@.skip(i + wanted.len()), wanted@, by@) =~= before + (by@
                + replaced(rest.skip(wanted.len() as int), wanted@, by@)));
            i = i + wanted.len();
        } else {
            out.push(chars[i]);
            assert(rest.skip(1) =~= chars@.skip(i + 1));
            assert(out@ + replaced(chars@.skip(i + 1), wanted@, by@) =~= before + (seq![rest[0]]
                + replaced(rest.skip(1), wanted@, by@)));
            i = i + 1;
        }
    }
    assert(replaced(chars@.skip(i as int), wanted@, by@) =~= Seq::<char>::empty());
    assert(out@ =~= out@ + Seq::<char>::empty());
    out
}

/// A text without the pattern stays as it is.
pub proof fn nothing_is_replaced(s: Seq<char>, pattern: Seq<char>, by: Seq<char>)
    requires
        forall|i: int| !#[trigger] stands_at(s, pattern, i),
    ensures
        replaced(s, pattern, by) == s,
    decreases s.len(),
{
    if pattern.len() > 0 && s.len() > 0 {
        assert(!stands_at(s, pattern, 0));
        let rest = s.skip(1);
        assert forall|i: int| !#[trigger] stands_at(rest, pattern, i) by {
            assert(!stands_at(s, pattern, i + 1));
            if stands_at(rest, pattern, i) {
                assert(rest.subrange(i, i + pattern.len()) =~= s.subrange(
                    i + 1,
                    i + 1 + pattern.len(),
                ));
            }
        }
        nothing_is_replaced(rest, pattern, by);
        assert(seq![s[0]] + rest =~= s);
    }
}

/// The bytes that a character takes in UTF-8.
pub open spec fn char_bytes(c: char) -> nat {
    if (c as u32) < 0x80 {
        1
    } else if (c as u32) < 0x800 {
        2
    } else if (c as u32) < 0x10000 {
        3
    } else {
        4
    }
}

/// The bytes that a text takes in UTF-8.
pub open spec fn byte_count(s: Seq<char>) -> nat
    decreases s.len(),
{
    if s.len() == 0 {
        0
    } else {
        byte_count(s.drop_last()) + char_bytes(s.last())
    }
}

/// The bytes that a text takes in UTF-8.
pub fn count_bytes(s: &str) -> (r: u128)
    ensures
        r == byte_count(s@),
{
    let chars = chars_of(s);
    let mut n: u128 = 0;
    let mut i: usize = 0;
    while i < chars.len()
        invariant
            i <= chars.len(),
            n == byte_count(chars@.take(i as int)),
            n <= 4 * i,
        decreases chars.len() - i,
    {
        assert(chars@.take(i + 1).drop_last() =~= chars@.take(i as int));
        let code: u32 = chars[i] as u32;
        if code < 0x80 {
            n = n + 1;
        } else if code < 0x800 {
            n = n + 2;
        } else if code < 0x10000 {
            n = n + 3;
        } else {
            n = n + 4;
        }
        i = i + 1;
    }
    assert(chars@.take(i as int) =~= chars@);
    n
}

/// Trimming takes the white space off both ends and nothing else.
pub proof fn only_outer_white_space_is_trimmed(s: Seq<char>)
    ensures
        exists|i: int, j: int|
            0 <= i <= j <= s.len() && trimmed(s) == #[trigger] s.subrange(i, j) && (forall|k: int|
                0 <= k < i ==> is_white(#[trigger] s[k])) && (forall|k: int|
                j <= k < s.len() ==> is_white(#[trigger] s[k])) && (i < j ==> !is_white(s[i])
                && !is_white(s[j - 1])),
{
    let i = front_white(s);
    let mid = trim_front(s);
    let n = back_white(mid);
    let j = i + n;
    assert(s.subrange(i, j) =~= mid.take(n));
    assert forall|k: int| j <= k < s.len() implies is_white(#[trigger] s[k]) by {
        assert(mid[k - i] == s[k]);
    }
    if i < j {
        assert(mid[0] == s[i]);
        assert(mid[n - 1] == s[j - 1]);
    }
}

proof fn front_white(s: Seq<char>) -> (i: int)
    ensures
        0 <= i <= s.len(),
        trim_front(s) == s.skip(i),
        forall|k: int| 0 <= k < i ==> is_white(#[trigger] s[k]),
        i < s.len() ==> !is_white(s[i]),
    decreases s.len(),
{
    if s.len() > 0 && is_white(s.first()) {
        let rest = s.drop_first();
        let i = front_white(rest);
        assert(rest.skip(i) =~= s.skip(i + 1));
        assert forall|k: int| 0 <= k < i + 1 implies is_white(#[trigger] s[k]) by {
            if k > 0 {
                assert(rest[k - 1] == s[k]);
            }
        }
        i + 1
    } else {
        assert(s.skip(0) =~= s);
        0
    }
}

proof fn back_white(s: Seq<char>) -> (n: int)
    ensures
        0 <= n <= s.len(),
        trim_back(s) == s.take(n),
        forall|k: int| n <= k < s.len() ==> is_white(#[trigger] s[k]),
        n > 0 ==> !is_white(s[n - 1]),
    decreases s.len(),
{
    if s.len() > 0 && is_white(s.last()) {
        let front = s.drop_last();
        let n = back_white(front);
        assert(front.take(n) =~= s.take(n));
        assert forall|k: int| n <= k < s.len() implies is_white(#[trigger] s[k]) by {
            if k < front.len() {
                assert(front[k] == s[k]);
            }
        }
        n
    } else {
        assert(s.take(s.len() as int) =~= s);
        s.len() as int
    }
}

/// A number that is written is read back, as long as it fits.
pub proof fn written_numbers_are_read_back(n: nat, max: nat)
    ensures
        digits_value(dec(n)) == n,
        n <= max ==> number_of(dec(n), max) == Some(n),
        n > max ==> number_of(dec(n), max) is None,
    decreases n,
{
    if n >= 10 {
        written_numbers_are_read_back(n / 10, max);
        assert(dec(n).drop_last() =~= dec(n / 10));
    } else {
        assert(dec(n).drop_last() =~= Seq::empty());
        reveal_with_fuel(digits_value, 2);
    }
    dec_is_digits(n);
    assert(dec(n).len() > 0);
    assert(is_digit(dec(n)[0]));
    assert(digits_of(dec(n)) == dec(n));
}

/// The pieces of a text, put together again, are the text.
pub proof fn pieces_make_up_the_text(s: Seq<char>, c: char)
    ensures
        joined(split_at_char(s, c), seq![c]) == s,
        forall|k: int, j: int|
            #![trigger split_at_char(s, c)[k][j]]
            0 <= k < split_at_char(s, c).len() && 0 <= j < split_at_char(s, c)[k].len()
                ==> split_at_char(s, c)[k][j] != c,
    decreases s.len(),
{
    let i = last_index(s, c);
    nothing_after_last(s, c);
    if i >= 0 {
        let front = s.take(i);
        pieces_make_up_the_text(front, c);
        there_is_a_first_piece(front, c);
        let before = split_at_char(front, c);
        let all = split_at_char(s, c);
        assert(all.drop_last() =~= before);
        assert(front + seq![c] + s.skip(i + 1) =~= s);
        assert forall|k: int, j: int|
            #![trigger split_at_char(s, c)[k][j]]
            0 <= k < all.len() && 0 <= j < all[k].len() implies all[k][j] != c by {
            if k < before.len() {
                assert(before[k][j] != c);
            }
        }
    }
}

/// A value is put in for each placeholder, and what stands between them stays.
pub proof fn a_placeholder_is_filled(
    front: Seq<char>,
    pattern: Seq<char>,
    back: Seq<char>,
    by: Seq<char>,
)
    requires
        pattern.len() > 0,
        forall|i: int|
            0 <= i < front.len() ==> !#[trigger] stands_at(front + pattern + back, pattern, i),
    ensures
        replaced(front + pattern + back, pattern, by) == front + by + replaced(back, pattern, by),
    decreases front.len(),
{
    let s = front + pattern + back;
    if front.len() == 0 {
        assert(s.subrange(0, pattern.len() as int) =~= pattern);
        assert(stands_at(s, pattern, 0));
        assert(s.skip(pattern.len() as int) =~= back);
        assert(front + by =~= by);
    } else {
        assert(!stands_at(s, pattern, 0));
        let rest = front.drop_first();
        assert(s.skip(1) =~= rest + pattern + back);
        assert forall|i: int| 0 <= i < rest.len() implies !#[trigger] stands_at(
            rest + pattern + back,
            pattern,
            i,
        ) by {
            if stands_at(rest + pattern + back, pattern, i) {
                assert(s.subrange(i + 1, i + 1 + pattern.len()) =~= (rest + pattern
                    + back).subrange(i, i + pattern.len()));
                assert(stands_at(s, pattern, i + 1));
            }
        }
        a_placeholder_is_filled(rest, pattern, back, by);
        assert(seq![s[0]] + (rest + by + replaced(back, pattern, by)) =~= front + by + replaced(
            back,
            pattern,
            by,
        ));
    }
}

/// Leading zeros do not change the number, and are there only to fill the width.
pub proof fn padding_keeps_the_number(n: nat, width: nat)
    ensures
        digits_value(zero_padded(dec(n), width)) == n,
        zero_padded(dec(n), width).len() >= width,
        zero_padded(dec(n), width).len() > width ==> zero_padded(dec(n), width) == dec(n),
        forall|i: int|
            0 <= i < zero_padded(dec(n), width).len() ==> is_digit(
                #[trigger] zero_padded(dec(n), width)[i],
            ),
{
    written_numbers_are_read_back(n, n);
    dec_is_digits(n);
    let s = dec(n);
    if s.len() < width {
        let zeros = Seq::new((width - s.len()) as nat, |i: int| '0');
        zeros_in_front_count_nothing(zeros, s);
        let t = zero_padded(s, width);
        assert forall|i: int| 0 <= i < t.len() implies is_digit(#[trigger] t[i]) by {
            if i >= zeros.len() {
                assert(t[i] == s[i - zeros.len()]);
            }
        }
    }
}

proof fn zeros_in_front_count_nothing(zeros: Seq<char>, s: Seq<char>)
    requires
        forall|i: int| 0 <= i < zeros.len() ==> #[trigger] zeros[i] == '0',
    ensures
        digits_value(zeros + s) == digits_value(s),
    decreases zeros.len() + s.len(),
{
    if s.len() > 0 {
        assert((zeros + s).drop_last() =~= zeros + s.drop_last());
        zeros_in_front_count_nothing(zeros, s.drop_last());
    } else if zeros.len() > 0 {
        assert(zeros + s =~= zeros);
        assert(zeros.drop_last() + s =~= zeros.drop_last());
        zeros_in_front_count_nothing(zeros.drop_last(), s);
    } else {
        assert(zeros + s =~= s);
    }
}

/// A prefix goes as often as it stands in front, and only then.
pub proof fn a_prefix_goes(head: Seq<char>, s: Seq<char>)
    requires
        head.len() > 0,
    ensures
        without_prefix(head + s, head) == without_prefix(s, head),
        !head.is_prefix_of(s) ==> without_prefix(s, head) == s,
{
    assert((head + s).subrange(0, head.len() as int) =~= head);
    assert(stands_at(head + s, head, 0));
    assert((head + s).skip(head.len() as int) =~= s);
}

/// A negative number is the positive one behind a sign.
pub proof fn a_sign_stands_in_front(n: nat)
    requires
        n > 0,
    ensures
        signed_dec(-n) == "-"@ + signed_dec(n as int),
        digits_value(signed_dec(n as int)) == n,
{
    reveal_strlit("-");
    assert("-"@ =~= seq!['-']);
    written_numbers_are_read_back(n, n);
}

/// Texts are ordered by the first character in which they differ, and a text
/// comes before those that go on after it.
pub proof fn the_first_difference_orders(front: Seq<char>, a: Seq<char>, b: Seq<char>)
    ensures
        lex_less(front + a, front + b) == lex_less(a, b),
        b.len() > 0 ==> lex_less(front, front + b),
        a.len() > 0 && b.len() > 0 && a[0] != b[0] ==> (lex_less(front + a, front + b) <==> a[0]
            < b[0]),
    decreases front.len(),
{
    if front.len() > 0 {
        the_first_difference_orders(front.drop_first(), a, b);
        assert((front + a).drop_first() =~= front.drop_first() + a);
        assert((front + b).drop_first() =~= front.drop_first() + b);
    } else {
        assert(front + a =~= a);
        assert(front + b =~= b);
    }
}

/// A text starts with, ends in and holds what it was put together from.
pub proof fn parts_are_found_where_they_stand(a: Seq<char>, part: Seq<char>, b: Seq<char>)
    ensures
        starts_in(part + b, part),
        ends_in(a + part, part),
        holds(a + part + b, part),
        starts_in(a, part) <==> part.is_prefix_of(a),
        ends_in(a, part) <==> part.is_suffix_of(a),
{
    assert((part + b).subrange(0, part.len() as int) =~= part);
    assert((a + part).subrange(a.len() as int, (a + part).len() as int) =~= part);
    assert((a + part + b).subrange(a.len() as int, (a.len() + part.len()) as int) =~= part);
    assert(stands_at(a + part + b, part, a.len() as int));
    if part.len() <= a.len() {
        assert(a.subrange(a.len() - part.len(), a.len() as int) =~= a.skip(a.len() - part.len()));
    }
}

/// A text that is found is a part of the text between two others.
pub proof fn what_is_found_is_a_part(s: Seq<char>, part: Seq<char>)
    requires
        holds(s, part),
    ensures
        exists|a: Seq<char>, b: Seq<char>| s == #[trigger] (a + part + b),
{
    let i = choose|i: int| stands_at(s, part, i);
    let a = s.take(i);
    let b = s.skip(i + part.len());
    assert(s =~= a + part + b);
}

/// The capital letters of ASCII become small ones, and nothing else changes.
pub proof fn only_capitals_become_small(c: char, k: int)
    ensures
        0 <= k < 26 ==> ascii_lower_char(('A' as int + k) as char) == ('a' as int + k) as char,
        !('A' <= c <= 'Z') ==> ascii_lower_char(c) == c,
{
}

/// A number may have a plus sign; a text without digits, or with anything else in
/// it, is no number.
pub proof fn only_digits_make_a_number(s: Seq<char>, n: nat, max: nat, i: int)
    ensures
        n <= max ==> number_of(seq!['+'] + dec(n), max) == Some(n),
        number_of(Seq::empty(), max) is None,
        0 <= i < s.len() && !is_digit(s[i]) && (i > 0 || s[i] != '+') ==> number_of(s, max) is None,
{
    written_numbers_are_read_back(n, max);
    dec_is_digits(n);
    let t = seq!['+'] + dec(n);
    assert(t.drop_first() =~= dec(n));
    if 0 <= i < s.len() && !is_digit(s[i]) && (i > 0 || s[i] != '+') {
        let digits = digits_of(s);
        if s[0] == '+' {
            assert(digits[i - 1] == s[i]);
        } else {
            assert(digits[i] == s[i]);
        }
    }
}

} // verus!
