//! Paths as text. How a path begins tells its system: a drive or a server marks
//! a path of Windows, where a backslash separates like a slash.
use vstd::prelude::*;

use crate::text::{
    chars_of, find_last, find_last_text, join2, join3, same, slice_of, split, to_ascii_lower, trim,
};

verus! {

/// The parts of a path that say something.
pub open spec fn is_path_part() -> spec_fn(Seq<char>) -> bool {
    |p: Seq<char>| p.len() > 0 && p != "."@
}

/// The file name at the end of a path that only slashes separate, if the path
/// ends in one.
pub open spec fn unix_file_name(path: Seq<char>) -> Option<Seq<char>> {
    let parts = crate::text::split_at_char(path, '/').filter(is_path_part());
    if parts.len() == 0 || parts.last() == ".."@ {
        None
    } else {
        Some(parts.last())
    }
}

/// The file name at the end of a path that only slashes separate, if the path
/// ends in one.
pub fn file_name(path: &str) -> (r: Option<String>)
    ensures
        crate::engine::model::text_view(r) == unix_file_name(path@),
{
    let pieces = split(path, '/');
    let ghost all = crate::text::views(pieces@);
    let mut i: usize = pieces.len();
    assert(all.take(i as int) =~= all);
    while i > 0
        invariant
            i <= pieces.len(),
            all == crate::text::views(pieces@),
            all == crate::text::split_at_char(path@, '/'),
            all.filter(is_path_part()) == all.take(i as int).filter(is_path_part()),
        decreases i,
    {
        proof {
            crate::lists::filter_take_succ(all, is_path_part(), i - 1);
        }
        let piece = &pieces[i - 1];
        if piece.as_str().unicode_len() > 0 && !same(piece.as_str(), ".") {
            if same(piece.as_str(), "..") {
                return None;
            }
            return Some(piece.clone());
        }
        i = i - 1;
    }
    proof {
        crate::lists::filter_take_all(all, is_path_part());
    }
    None
}

/// Whether a character separates the parts of a Windows path.
pub open spec fn is_separator(c: char) -> bool {
    c == '/' || c == '\\'
}

/// The place of the first separator from `from` on, the length of the path when
/// there is none.
pub open spec fn next_separator(path: Seq<char>, from: int) -> int
    decreases path.len() - from,
{
    if from >= path.len() {
        path.len() as int
    } else if is_separator(path[from]) {
        from
    } else {
        next_separator(path, from + 1)
    }
}

/// Whether a path starts with a drive letter.
pub open spec fn has_drive(path: Seq<char>) -> bool {
    path.len() >= 2 && path[1] == ':' && ('a' <= path[0] <= 'z' || 'A' <= path[0] <= 'Z')
}

/// Whether a path starts with the name of a server.
pub open spec fn has_server(path: Seq<char>) -> bool {
    path.len() >= 2 && path[0] == '\\' && path[1] == '\\'
}

/// How long the drive, or the server with its share, is that a Windows path
/// starts with. Zero tells a path of another system, which only a slash
/// separates.
pub open spec fn prefix_length(path: Seq<char>) -> int {
    if has_drive(path) {
        2
    } else if has_server(path) {
        let server = next_separator(path, 2);
        if server >= path.len() {
            server
        } else {
            next_separator(path, server + 1)
        }
    } else {
        0
    }
}

/// A path with slashes only.
pub open spec fn slashed(path: Seq<char>) -> Seq<char> {
    path.map_values(
        |c: char|
            if c == '\\' {
                '/'
            } else {
                c
            },
    )
}

/// What follows the drive or server of a path, with slashes only; a path of
/// another system as it is.
pub open spec fn behind_prefix(path: Seq<char>) -> Seq<char> {
    let n = prefix_length(path);
    if n > 0 {
        slashed(path.skip(n))
    } else {
        path
    }
}

proof fn next_separator_is_behind(path: Seq<char>, from: int)
    requires
        0 <= from <= path.len(),
    ensures
        from <= next_separator(path, from) <= path.len(),
    decreases path.len() - from,
{
    if from < path.len() && !is_separator(path[from]) {
        next_separator_is_behind(path, from + 1);
    }
}

proof fn prefix_is_part(path: Seq<char>)
    ensures
        0 <= prefix_length(path) <= path.len(),
        prefix_length(path) > 0 <==> has_drive(path) || has_server(path),
        has_server(path) ==> prefix_length(path) >= 2,
{
    if has_server(path) {
        next_separator_is_behind(path, 2);
        let server = next_separator(path, 2);
        if server < path.len() {
            next_separator_is_behind(path, server + 1);
        }
    }
}

fn find_separator(path: &Vec<char>, from: usize) -> (r: usize)
    requires
        from <= path.len(),
    ensures
        r == next_separator(path@, from as int),
        from <= r <= path.len(),
{
    let mut i: usize = from;
    while i < path.len() && path[i] != '/' && path[i] != '\\'
        invariant
            from <= i <= path.len(),
            next_separator(path@, from as int) == next_separator(path@, i as int),
        decreases path.len() - i,
    {
        i = i + 1;
    }
    i
}

fn find_prefix(path: &Vec<char>) -> (r: usize)
    ensures
        r == prefix_length(path@),
        r <= path.len(),
{
    if path.len() < 2 {
        return 0;
    }
    let c = path[0];
    if path[1] == ':' && (('a' <= c && c <= 'z') || ('A' <= c && c <= 'Z')) {
        return 2;
    }
    if !(c == '\\' && path[1] == '\\') {
        return 0;
    }
    let server: usize = find_separator(path, 2);
    if server >= path.len() {
        server
    } else {
        find_separator(path, server + 1)
    }
}

fn with_slashes(path: &Vec<char>, from: usize) -> (r: String)
    requires
        from <= path.len(),
    ensures
        r@ == slashed(path@.skip(from as int)),
{
    let mut out = String::new();
    let mut i: usize = from;
    assert(slashed(path@.subrange(from as int, from as int)) =~= out@);
    while i < path.len()
        invariant
            from <= i <= path.len(),
            out@ == slashed(path@.subrange(from as int, i as int)),
        decreases path.len() - i,
    {
        let c = path[i];
        out.push(
            if c == '\\' {
                '/'
            } else {
                c
            },
        );
        assert(slashed(path@.subrange(from as int, i + 1)) =~= slashed(
            path@.subrange(from as int, i as int),
        ).push(if c == '\\' { '/' } else { c }));
        i = i + 1;
    }
    assert(path@.subrange(from as int, i as int) =~= path@.skip(from as int));
    out
}

fn rest_of(path: &str) -> (r: String)
    ensures
        r@ == behind_prefix(path@),
{
    let chars = chars_of(path);
    let n: usize = find_prefix(&chars);
    if n > 0 {
        with_slashes(&chars, n)
    } else {
        path.to_owned()
    }
}

/// The file name at the end of a path, if the path ends in one.
pub open spec fn last_name(path: Seq<char>) -> Option<Seq<char>> {
    unix_file_name(behind_prefix(path))
}

/// The file name at the end of a path, empty when the path ends in none.
pub fn file_name_of(path: &str) -> (r: String)
    ensures
        r@ == match last_name(path@) {
            Some(name) => name,
            None => Seq::empty(),
        },
{
    match file_name(rest_of(path).as_str()) {
        Some(name) => name,
        None => String::new(),
    }
}

/// A path whose file name has another extension: what stands in front of the
/// file name, its stem and the extension. A path that ends in no file name stays
/// as it is.
pub open spec fn extended(path: Seq<char>, extension: Seq<char>) -> Seq<char> {
    match last_name(path) {
        Some(name) => path.take(
            crate::text::rfind(path, name) + crate::sink::stem_of(name).len(),
        ) + "."@ + extension,
        None => path,
    }
}

proof fn a_piece_stands_in_its_text(s: Seq<char>, c: char, k: int)
    requires
        0 <= k < crate::text::split_at_char(s, c).len(),
    ensures
        exists|i: int| crate::text::stands_at(s, crate::text::split_at_char(s, c)[k], i),
        !crate::text::split_at_char(s, c)[k].contains(c),
    decreases s.len(),
{
    let at = crate::text::last_index(s, c);
    let pieces = crate::text::split_at_char(s, c);
    crate::text::nothing_after_last(s, c);
    if at < 0 {
        assert(s.subrange(0, s.len() as int) =~= s);
        assert(crate::text::stands_at(s, pieces[k], 0));
    } else {
        let front = s.take(at);
        if k == pieces.len() - 1 {
            assert(s.subrange(at + 1, s.len() as int) =~= pieces[k]);
            assert(crate::text::stands_at(s, pieces[k], at + 1));
        } else {
            a_piece_stands_in_its_text(front, c, k);
            let i = choose|i: int| crate::text::stands_at(front, pieces[k], i);
            assert(s.subrange(i, i + pieces[k].len()) =~= front.subrange(i, i + pieces[k].len()));
            assert(crate::text::stands_at(s, pieces[k], i));
        }
    }
}

proof fn what_stands_is_found(s: Seq<char>, pattern: Seq<char>, i: int, from: int)
    requires
        crate::text::stands_at(s, pattern, i),
        i <= from,
    ensures
        crate::text::rfind_up_to(s, pattern, from) >= 0,
    decreases from,
{
    if !crate::text::stands_at(s, pattern, from) {
        what_stands_is_found(s, pattern, i, from - 1);
    }
}

proof fn a_name_stands_in_its_path(path: Seq<char>)
    ensures
        last_name(path) matches Some(name) ==> crate::text::rfind(path, name) >= 0,
{
    let n = prefix_length(path);
    let rest = behind_prefix(path);
    let pieces = crate::text::split_at_char(rest, '/');
    let parts = pieces.filter(is_path_part());
    prefix_is_part(path);
    if last_name(path) is Some {
        let name = parts.last();
        pieces.lemma_filter_contains_rev(is_path_part(), name);
        let k = pieces.index_of(name);
        a_piece_stands_in_its_text(rest, '/', k);
        let i = choose|i: int| crate::text::stands_at(rest, name, i);
        assert(rest.len() == path.len() - n);
        assert forall|j: int| 0 <= j < name.len() implies path[n + i + j] == #[trigger] name[j] by {
            assert(rest.subrange(i, i + name.len())[j] == rest[i + j]);
            assert(name.contains(name[j]));
        }
        assert(path.subrange(n + i, n + i + name.len()) =~= name);
        what_stands_is_found(path, name, n + i, path.len() - name.len());
    }
}

/// A path whose file name has another extension.
pub fn with_extension(path: &str, extension: &str) -> (r: String)
    ensures
        r@ == extended(path@, extension@),
{
    let name = match file_name(rest_of(path).as_str()) {
        Some(name) => chars_of(name.as_str()),
        None => return path.to_owned(),
    };
    let chars = chars_of(path);
    let stem: usize = match find_last(name.as_slice(), '.') {
        Some(i) if i > 0 => i,
        _ => name.len(),
    };
    proof {
        a_name_stands_in_its_path(path@);
    }
    match find_last_text(chars.as_slice(), name.as_slice()) {
        Some(at) => {
            let len: usize = chars.len();
            assert(at + stem <= len);
            let front = slice_of(chars.as_slice(), 0, at + stem);
            assert(front@ =~= path@.take(at + stem));
            join3(front.as_str(), ".", extension)
        },
        None => path.to_owned(),
    }
}

/// A path below another one, the second one alone where it is absolute. On
/// Windows one that starts with a separator stays on the drive or server of the
/// first.
pub open spec fn below(base: Seq<char>, name: Seq<char>) -> Seq<char> {
    let n = prefix_length(base);
    if base.len() == 0 {
        name
    } else if n == 0 {
        if name.len() > 0 && name[0] == '/' {
            name
        } else if base.last() == '/' {
            base + name
        } else {
            base + "/"@ + name
        }
    } else if prefix_length(name) > 0 {
        name
    } else if name.len() > 0 && is_separator(name[0]) {
        base.take(n) + name
    } else if is_separator(base.last()) || has_drive(base) && base.len() == 2 {
        base + name
    } else {
        base + "\\"@ + name
    }
}

/// A path below another one, the second one alone where it is absolute.
pub fn join_path(base: &str, name: &str) -> (r: String)
    ensures
        r@ == below(base@, name@),
{
    let front = chars_of(base);
    let back = chars_of(name);
    let n: usize = find_prefix(&front);
    let len: usize = front.len();
    proof {
        prefix_is_part(base@);
    }
    if len == 0 {
        return name.to_owned();
    }
    let last = front[len - 1];
    if n == 0 {
        return if back.len() > 0 && back[0] == '/' {
            name.to_owned()
        } else if last == '/' {
            join2(base, name)
        } else {
            join3(base, "/", name)
        };
    }
    if find_prefix(&back) > 0 {
        name.to_owned()
    } else if back.len() > 0 && (back[0] == '/' || back[0] == '\\') {
        let root = slice_of(front.as_slice(), 0, n);
        assert(root@ =~= base@.take(n as int));
        join2(root.as_str(), name)
    } else if last == '/' || last == '\\' || front[1] == ':' && len == 2 {
        assert(front@[1] == ':' && len == 2 ==> has_drive(base@) || has_server(base@));
        join2(base, name)
    } else {
        join3(base, "\\", name)
    }
}

/// What the components of a path start with: the root or a leading dot, on
/// Windows the drive or the server with its share, and then the root.
pub open spec fn head_of(path: Seq<char>) -> Seq<Seq<char>> {
    let n = prefix_length(path);
    let rest = behind_prefix(path);
    let pieces = crate::text::split_at_char(rest, '/');
    if has_drive(path) {
        seq![crate::text::ascii_lower(path.take(n))] + (if rest.len() > 0 && rest[0] == '/' {
            seq!["/"@]
        } else {
            Seq::empty()
        })
    } else if has_server(path) {
        seq![path.take(n), "/"@]
    } else if rest.len() > 0 && rest[0] == '/' {
        seq!["/"@]
    } else if pieces.len() > 0 && pieces[0] == "."@ {
        seq!["."@]
    } else {
        Seq::empty()
    }
}

/// The components of a path: what it starts with, then the names.
pub open spec fn components(path: Seq<char>) -> Seq<Seq<char>> {
    head_of(path) + crate::text::split_at_char(behind_prefix(path), '/').filter(is_path_part())
}

fn list_components(path: &str) -> (r: Vec<String>)
    ensures
        crate::text::views(r@) == components(path@),
{
    let chars = chars_of(path);
    let n: usize = find_prefix(&chars);
    proof {
        prefix_is_part(path@);
    }
    let rest = rest_of(path);
    let pieces = split(rest.as_str(), '/');
    let ghost all = crate::text::views(pieces@);
    let mut out: Vec<String> = Vec::new();
    let rooted = rest.as_str().unicode_len() > 0 && rest.as_str().get_char(0) == '/';
    if n > 0 {
        let front = slice_of(chars.as_slice(), 0, n);
        assert(front@ =~= path@.take(n as int));
        if chars[1] == ':' {
            out.push(to_ascii_lower(front.as_str()));
            if rooted {
                out.push("/".to_owned());
            }
        } else {
            out.push(front);
            out.push("/".to_owned());
        }
    } else if rooted {
        out.push("/".to_owned());
    } else if pieces.len() > 0 && same(pieces[0].as_str(), ".") {
        out.push(".".to_owned());
    }
    let ghost head = crate::text::views(out@);
    assert(head =~= head_of(path@));
    let mut i: usize = 0;
    proof {
        crate::lists::filter_take_all(all, is_path_part());
    }
    assert(crate::text::views(out@) =~= head + all.take(0).filter(is_path_part()));
    while i < pieces.len()
        invariant
            i <= pieces.len(),
            all == crate::text::views(pieces@),
            crate::text::views(out@) == head + all.take(i as int).filter(is_path_part()),
        decreases pieces.len() - i,
    {
        proof {
            crate::lists::filter_take_succ(all, is_path_part(), i as int);
        }
        let piece = &pieces[i];
        if piece.as_str().unicode_len() > 0 && !same(piece.as_str(), ".") {
            let ghost before = crate::text::views(out@);
            out.push(piece.clone());
            assert(crate::text::views(out@) =~= before.push(piece@));
            assert(crate::text::views(out@) =~= head + all.take(i + 1).filter(is_path_part()));
        }
        i = i + 1;
    }
    proof {
        crate::lists::filter_take_all(all, is_path_part());
    }
    out
}

/// Whether two paths have the same components.
pub open spec fn is_same_path(a: Seq<char>, b: Seq<char>) -> bool {
    components(a) == components(b)
}

/// Whether a path is another one, or stands below it.
pub open spec fn is_within(path: Seq<char>, base: Seq<char>) -> bool {
    components(base).is_prefix_of(components(path))
}

/// Whether two paths have the same components.
pub fn same_path(a: &str, b: &str) -> (r: bool)
    ensures
        r == is_same_path(a@, b@),
{
    let x = list_components(a);
    let y = list_components(b);
    assert(crate::text::views(x@).len() == x.len() && crate::text::views(y@).len() == y.len());
    x.len() == y.len() && starts(&x, &y)
}

/// The folder that a text chooses, `None` when it is empty or the folder that is
/// used without a choice.
pub open spec fn chosen_folder(text: Seq<char>, default: Seq<char>) -> Option<Seq<char>> {
    let dir = crate::text::trimmed(text);
    if dir.len() == 0 || is_same_path(dir, default) {
        None
    } else {
        Some(dir)
    }
}

/// The folder that a text chooses, `None` when it is empty or the folder that is
/// used without a choice.
pub fn choose_folder(text: &str, default: &str) -> (r: Option<String>)
    ensures
        crate::engine::model::text_view(r) == chosen_folder(text@, default@),
{
    let dir = trim(text);
    if dir.as_str().unicode_len() == 0 || same_path(dir.as_str(), default) {
        None
    } else {
        Some(dir)
    }
}

/// Whether a path is another one, or stands below it.
pub fn within(path: &str, base: &str) -> (r: bool)
    ensures
        r == is_within(path@, base@),
{
    let x = list_components(path);
    let y = list_components(base);
    starts(&x, &y)
}

fn starts(list: &Vec<String>, front: &Vec<String>) -> (r: bool)
    ensures
        r == crate::text::views(front@).is_prefix_of(crate::text::views(list@)),
        r && list.len() == front.len() ==> crate::text::views(list@) == crate::text::views(front@),
        list.len() == front.len() && crate::text::views(list@) == crate::text::views(front@) ==> r,
{
    let ghost a = crate::text::views(list@);
    let ghost b = crate::text::views(front@);
    if front.len() > list.len() {
        return false;
    }
    let mut i: usize = 0;
    while i < front.len()
        invariant
            i <= front.len() <= list.len(),
            a == crate::text::views(list@),
            b == crate::text::views(front@),
            forall|k: int| 0 <= k < i ==> a[k] == b[k],
        decreases front.len() - i,
    {
        if !same(list[i].as_str(), front[i].as_str()) {
            assert(a[i as int] != b[i as int]);
            assert(a.subrange(0, b.len() as int)[i as int] == a[i as int]);
            return false;
        }
        i = i + 1;
    }
    assert(a.subrange(0, b.len() as int) =~= b);
    assert(a.len() == b.len() ==> a =~= b);
    true
}

/// The pieces of two texts with a separator between them are the pieces of both.
pub(crate) proof fn pieces_add_up(a: Seq<char>, c: char, b: Seq<char>)
    ensures
        crate::text::split_at_char(a + seq![c] + b, c) == crate::text::split_at_char(a, c)
            + crate::text::split_at_char(b, c),
    decreases b.len(),
{
    let s = a + seq![c] + b;
    let i = crate::text::last_index(b, c);
    crate::text::nothing_after_last(b, c);
    crate::text::nothing_after_last(s, c);
    let at = crate::text::last_index(s, c);
    if i < 0 {
        assert(s[a.len() as int] == c);
        assert(at == a.len()) by {
            if at > a.len() {
                assert(s[at] == b[at - a.len() - 1]);
            }
        }
        assert(s.take(at) =~= a);
        assert(s.skip(at + 1) =~= b);
        assert(crate::text::split_at_char(s, c) =~= crate::text::split_at_char(a, c)
            + crate::text::split_at_char(b, c));
    } else {
        assert(s[a.len() + 1 + i] == b[i]);
        assert(at == a.len() + 1 + i) by {
            if at > a.len() + 1 + i {
                assert(s[at] == b[at - a.len() - 1]);
            }
        }
        let front = b.take(i);
        assert(s.take(at) =~= a + seq![c] + front);
        assert(s.skip(at + 1) =~= b.skip(i + 1));
        pieces_add_up(a, c, front);
        assert(crate::text::split_at_char(s, c) =~= crate::text::split_at_char(a, c)
            + crate::text::split_at_char(b, c));
    }
}

/// A file below a folder lies within it, and so does everything below that: a
/// path is within another one where its components start with those of the
/// other.
pub proof fn what_is_below_lies_within(base: Seq<char>, name: Seq<char>)
    requires
        base.len() > 0,
        prefix_length(base) == 0,
        base.last() != '/',
        name.len() > 0,
        name[0] != '/',
        prefix_length(base + "/"@ + name) == 0,
    ensures
        is_within(below(base, name), base),
        components(below(base, name)) == components(base) + crate::text::split_at_char(
            name,
            '/',
        ).filter(is_path_part()),
{
    reveal_strlit("/");
    let path = base + "/"@ + name;
    assert("/"@ =~= seq!['/']);
    pieces_add_up(base, '/', name);
    let a = crate::text::split_at_char(base, '/');
    let b = crate::text::split_at_char(name, '/');
    Seq::filter_distributes_over_add(a, b, is_path_part());
    crate::text::there_is_a_first_piece(base, '/');
    prefix_is_part(base);
    prefix_is_part(path);
    assert((a + b)[0] == a[0]);
    assert(path[0] == base[0]);
    assert(head_of(path) =~= head_of(base));
    assert(components(path) =~= components(base) + b.filter(is_path_part()));
    assert(components(base).is_prefix_of(components(path)));
}

/// Lying within is what a path does in itself, and passes on.
pub proof fn within_is_passed_on(a: Seq<char>, b: Seq<char>, c: Seq<char>)
    ensures
        is_within(a, a),
        is_within(a, b) && is_within(b, c) ==> is_within(a, c),
        is_within(a, b) && is_within(b, a) ==> is_same_path(a, b),
        is_same_path(a, b) ==> is_within(a, b) && is_within(b, a),
{
    let (x, y, z) = (components(a), components(b), components(c));
    assert(x.is_prefix_of(x));
    if is_within(a, b) && is_within(b, c) {
        assert(z =~= x.subrange(0, z.len() as int)) by {
            assert(y =~= x.subrange(0, y.len() as int));
            assert(z =~= y.subrange(0, z.len() as int));
        }
        assert(z.is_prefix_of(x));
    }
    if is_within(a, b) && is_within(b, a) {
        assert(x =~= y);
    }
}

/// A path with another extension is in the same place: only what follows the stem
/// of its file name changes.
pub proof fn another_extension_keeps_the_stem(path: Seq<char>, extension: Seq<char>)
    ensures
        match last_name(path) {
            Some(name) => {
                let at = crate::text::rfind(path, name);
                let stem = crate::sink::stem_of(name);
                &&& 0 <= at
                &&& extended(path, extension).len() == at + stem.len() + 1 + extension.len()
                &&& path.take(at).is_prefix_of(extended(path, extension))
                &&& extended(path, extension).skip(at + stem.len() + 1) == extension
            },
            None => extended(path, extension) == path,
        },
{
    a_name_stands_in_its_path(path);
    reveal_strlit(".");
    if let Some(name) = last_name(path) {
        let at = crate::text::rfind(path, name);
        let stem = crate::sink::stem_of(name);
        crate::text::nothing_after_last(name, '.');
        where_it_is_found_it_stands(path, name, path.len() - name.len());
        let new = extended(path, extension);
        assert(new.skip(at + stem.len() + 1) =~= extension);
        assert(new.take(at) =~= path.take(at));
    }
}

proof fn where_it_is_found_it_stands(s: Seq<char>, pattern: Seq<char>, from: int)
    ensures
        crate::text::rfind_up_to(s, pattern, from) >= 0 ==> crate::text::stands_at(
            s,
            pattern,
            crate::text::rfind_up_to(s, pattern, from),
        ),
    decreases from + 1,
{
    if from >= 0 && !crate::text::stands_at(s, pattern, from) {
        where_it_is_found_it_stands(s, pattern, from - 1);
    }
}

/// A folder is chosen by any path but that of the default folder, however that is
/// written; an empty text chooses nothing.
pub proof fn the_default_folder_is_no_choice(text: Seq<char>, default: Seq<char>)
    ensures
        chosen_folder(text, default) is Some <==> crate::text::trimmed(text).len() > 0
            && components(crate::text::trimmed(text)) != components(default),
        chosen_folder(text, default) is Some ==> chosen_folder(text, default)->0
            == crate::text::trimmed(text),
{
}

/// The name of a file is what follows the last separator of its path.
pub proof fn a_file_is_named_without_its_folder(folder: Seq<char>, name: Seq<char>)
    requires
        name.len() > 0,
        !name.contains('/'),
        name != "."@,
    ensures
        name != ".."@ ==> unix_file_name(folder + seq!['/'] + name) == Some(name),
        name == ".."@ ==> unix_file_name(folder + seq!['/'] + name) is None,
{
    let path = folder + seq!['/'] + name;
    let p = is_path_part();
    pieces_add_up(folder, '/', name);
    crate::text::nothing_after_last(name, '/');
    if crate::text::last_index(name, '/') >= 0 {
        assert(name.contains('/'));
    }
    let front = crate::text::split_at_char(folder, '/');
    assert(crate::text::split_at_char(name, '/') == seq![name]);
    Seq::filter_distributes_over_add(front, seq![name], p);
    reveal_with_fuel(Seq::filter, 2);
    assert(seq![name].drop_last() =~= Seq::empty());
    assert(seq![name].filter(p) =~= seq![name]);
    let parts = crate::text::split_at_char(path, '/').filter(p);
    assert(parts =~= front.filter(p).push(name));
    assert(parts.last() == name);
}

} // verus!
