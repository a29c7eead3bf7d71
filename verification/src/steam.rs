//! Suggesting a name for an executable from the Steam catalog. Only used for
//! executables that the bundled database does not know.
use vstd::prelude::*;

use crate::text::{chars_of, count_bytes, find_last, replace, same, slice_of, starts_with, to_lowercase};

verus! {

/// Whether a character is an ASCII letter or digit.
pub open spec fn is_alphanumeric(c: char) -> bool {
    'a' <= c <= 'z' || 'A' <= c <= 'Z' || '0' <= c <= '9'
}

/// The ASCII letters and digits of a text.
pub open spec fn letters(s: Seq<char>) -> Seq<char> {
    s.filter(|c: char| is_alphanumeric(c))
}

/// Keeps the ASCII letters and digits of a text.
pub fn keep_letters(text: &str) -> (r: String)
    ensures
        r@ == letters(text@),
{
    let chars = chars_of(text);
    let ghost p = |c: char| is_alphanumeric(c);
    let mut out = String::new();
    let mut i: usize = 0;
    proof {
        crate::lists::filter_take_all(chars@, p);
    }
    while i < chars.len()
        invariant
            i <= chars.len(),
            p == (|c: char| is_alphanumeric(c)),
            out@ == chars@.take(i as int).filter(p),
        decreases chars.len() - i,
    {
        proof {
            crate::lists::filter_take_succ(chars@, p, i as int);
        }
        let c = chars[i];
        if ('a' <= c && c <= 'z') || ('A' <= c && c <= 'Z') || ('0' <= c && c <= '9') {
            out.push(c);
        }
        i = i + 1;
    }
    proof {
        crate::lists::filter_take_all(chars@, p);
    }
    out
}

/// The name of an executable without its extension.
pub open spec fn without_extension(exe: Seq<char>) -> Seq<char> {
    let dot = crate::text::last_index(exe, '.');
    if dot >= 0 {
        exe.take(dot)
    } else {
        exe
    }
}

/// A lowercased name without what builds of a game are marked with.
pub open spec fn without_marks(stem: Seq<char>) -> Seq<char> {
    crate::text::replaced(
        crate::text::replaced(
            crate::text::replaced(
                crate::text::replaced(
                    crate::text::replaced(stem, "-win64-shipping"@, ""@),
                    "-win32-shipping"@,
                    ""@,
                ),
                "_dx12"@,
                ""@,
            ),
            "_dx11"@,
            ""@,
        ),
        "64"@,
        ""@,
    )
}

/// Takes off what builds of a game are marked with.
pub fn strip_marks(stem: &str) -> (r: String)
    ensures
        r@ == without_marks(stem@),
{
    proof {
        reveal_strlit("-win64-shipping");
        reveal_strlit("-win32-shipping");
        reveal_strlit("_dx12");
        reveal_strlit("_dx11");
        reveal_strlit("64");
    }
    let s = replace(stem, "-win64-shipping", "");
    let s = replace(s.as_str(), "-win32-shipping", "");
    let s = replace(s.as_str(), "_dx12", "");
    let s = replace(s.as_str(), "_dx11", "");
    replace(s.as_str(), "64", "")
}

/// What two spellings of a name have in common.
pub open spec fn normal(text: Seq<char>) -> Seq<char> {
    letters(crate::text::lowercase(text))
}

/// The small ASCII letters and digits of a text in lower case. What was
/// normalized once does not change any more.
pub fn normalize(text: &str) -> (r: String)
    ensures
        r@ == normal(text@),
        crate::text::is_plain(r@),
        crate::text::is_plain(text@) ==> r@ == text@,
{
    let lower = to_lowercase(text);
    let r = keep_letters(lower.as_str());
    proof {
        let p = |c: char| is_alphanumeric(c);
        assert forall|i: int| 0 <= i < r@.len() implies 'a' <= #[trigger] r@[i] <= 'z' || '0'
            <= r@[i] <= '9' by {
            lower@.lemma_filter_pred(p, i);
            lower@.lemma_filter_contains_rev(p, r@[i]);
            let k = choose|k: int| 0 <= k < lower@.len() && lower@[k] == r@[i];
            assert(!('A' <= lower@[k] <= 'Z'));
        }
        if crate::text::is_plain(text@) {
            crate::lists::filter_keeps_all(lower@, p);
        }
    }
    r
}

/// What is looked for in the catalog for an executable.
pub open spec fn stem_of(exe: Seq<char>) -> Seq<char> {
    normal(without_marks(crate::text::lowercase(without_extension(exe))))
}

fn exe_stem(exe: &str) -> (r: String)
    ensures
        r@ == stem_of(exe@),
{
    let chars = chars_of(exe);
    let stem = match find_last(chars.as_slice(), '.') {
        Some(dot) => slice_of(chars.as_slice(), 0, dot),
        None => exe.to_owned(),
    };
    assert(stem@ =~= without_extension(exe@));
    let lower = to_lowercase(stem.as_str());
    let bare = strip_marks(lower.as_str());
    normalize(bare.as_str())
}

/// Whether the name at `i` is the first that is spelled like the stem.
pub open spec fn is_exact(stem: Seq<char>, normals: Seq<Seq<char>>, i: int) -> bool {
    &&& 0 <= i < normals.len()
    &&& normals[i] == stem
    &&& forall|k: int| 0 <= k < i ==> #[trigger] normals[k] != stem
}

/// Whether the name at `i` is the shortest that starts with the stem, the
/// first of those that are equally short.
pub open spec fn is_shortest(
    stem: Seq<char>,
    normals: Seq<Seq<char>>,
    names: Seq<Seq<char>>,
    i: int,
) -> bool {
    &&& 0 <= i < normals.len()
    &&& crate::text::starts_in(normals[i], stem)
    &&& forall|k: int|
        0 <= k < normals.len() && crate::text::starts_in(#[trigger] normals[k], stem) ==> {
            let a = crate::text::byte_count(names[i]);
            let b = crate::text::byte_count(names[k]);
            a < b || a == b && i <= k
        }
}

/// Whether a name is spelled like the stem.
pub open spec fn some_exact(stem: Seq<char>, normals: Seq<Seq<char>>) -> bool {
    exists|k: int| 0 <= k < normals.len() && #[trigger] normals[k] == stem
}

/// Whether the choice for a stem is the name at `i`, or none.
pub open spec fn is_choice(
    stem: Seq<char>,
    normals: Seq<Seq<char>>,
    names: Seq<Seq<char>>,
    choice: Option<int>,
) -> bool {
    if stem.len() < 3 {
        choice is None
    } else if some_exact(stem, normals) {
        choice is Some && is_exact(stem, normals, choice->0)
    } else {
        match choice {
            Some(i) => is_shortest(stem, normals, names, i),
            None => forall|k: int|
                0 <= k < normals.len() ==> !crate::text::starts_in(#[trigger] normals[k], stem),
        }
    }
}

/// Picks the name that best matches a stem: an exact match, otherwise the
/// shortest name starting with it. `normals` are the spellings of the names
/// that are compared.
pub fn pick_name(stem: &str, normals: &Vec<String>, names: &[String]) -> (r: Option<usize>)
    requires
        normals.len() == names.len(),
    ensures
        r is Some ==> r->0 < names.len(),
        is_choice(
            stem@,
            crate::text::views(normals@),
            crate::text::views(names@),
            match r {
                Some(i) => Some(i as int),
                None => None,
            },
        ),
{
    let ghost all = crate::text::views(normals@);
    let ghost full = crate::text::views(names@);
    if stem.unicode_len() < 3 {
        return None;
    }
    let mut best: Option<usize> = None;
    let mut i: usize = 0;
    while i < names.len()
        invariant
            normals.len() == names.len(),
            i <= names.len(),
            stem@.len() >= 3,
            all == crate::text::views(normals@),
            full == crate::text::views(names@),
            forall|k: int| 0 <= k < i ==> #[trigger] all[k] != stem@,
            match best {
                Some(b) => {
                    &&& b < i
                    &&& crate::text::starts_in(all[b as int], stem@)
                    &&& forall|k: int|
                        0 <= k < i && crate::text::starts_in(#[trigger] all[k], stem@) ==> {
                            let x = crate::text::byte_count(full[b as int]);
                            let y = crate::text::byte_count(full[k]);
                            x < y || x == y && b <= k
                        }
                },
                None => forall|k: int|
                    0 <= k < i ==> !crate::text::starts_in(#[trigger] all[k], stem@),
            },
        decreases names.len() - i,
    {
        assert(all[i as int] == normals@[i as int]@);
        assert(full[i as int] == names@[i as int]@);
        if same(normals[i].as_str(), stem) {
            assert(is_exact(stem@, all, i as int));
            return Some(i);
        }
        if starts_with(normals[i].as_str(), stem) {
            let shorter = match best {
                None => true,
                Some(b) => {
                    assert(full[b as int] == names@[b as int]@);
                    count_bytes(names[i].as_str()) < count_bytes(names[b].as_str())
                },
            };
            if shorter {
                best = Some(i);
            }
        }
        i = i + 1;
    }
    best
}

/// The spellings of names that are compared.
pub open spec fn normals_of(names: Seq<Seq<char>>) -> Seq<Seq<char>> {
    names.map_values(|n: Seq<char>| normal(n))
}

/// Picks the catalog name that best matches an executable: an exact match
/// on the normalized stem, otherwise the shortest name starting with it.
pub fn suggest_name<'a>(exe: &str, names: &'a [String]) -> (r: Option<&'a String>)
    ensures
        exists|choice: Option<int>| #[trigger]
            is_choice(
                stem_of(exe@),
                normals_of(crate::text::views(names@)),
                crate::text::views(names@),
                choice,
            ) && match choice {
                Some(i) => r is Some && 0 <= i < names@.len() && *r->0 == names@[i],
                None => r is None,
            },
{
    let stem = exe_stem(exe);
    let mut normals: Vec<String> = Vec::new();
    let mut i: usize = 0;
    while i < names.len()
        invariant
            i <= names.len(),
            normals.len() == i,
            forall|k: int| 0 <= k < i ==> (#[trigger] normals@[k])@ == normal(names@[k]@),
        decreases names.len() - i,
    {
        normals.push(normalize(names[i].as_str()));
        i = i + 1;
    }
    assert(crate::text::views(normals@) =~= normals_of(crate::text::views(names@)));
    match pick_name(stem.as_str(), &normals, names) {
        Some(at) => {
            let ghost choice = Some(at as int);
            assert(is_choice(
                stem_of(exe@),
                normals_of(crate::text::views(names@)),
                crate::text::views(names@),
                choice,
            ));
            Some(&names[at])
        },
        None => {
            let ghost choice = None::<int>;
            assert(is_choice(
                stem_of(exe@),
                normals_of(crate::text::views(names@)),
                crate::text::views(names@),
                choice,
            ));
            None
        },
    }
}

/// A suggestion is settled by the executable and the catalog.
pub proof fn a_suggestion_is_settled(
    stem: Seq<char>,
    normals: Seq<Seq<char>>,
    names: Seq<Seq<char>>,
    a: Option<int>,
    b: Option<int>,
)
    requires
        is_choice(stem, normals, names, a),
        is_choice(stem, normals, names, b),
    ensures
        a == b,
{
    if stem.len() >= 3 {
        if some_exact(stem, normals) {
            assert(normals[a->0] == stem && normals[b->0] == stem);
            if a->0 < b->0 {
                assert(normals[a->0] != stem);
            }
            if b->0 < a->0 {
                assert(normals[b->0] != stem);
            }
        } else if a is Some && b is Some {
            assert(crate::text::starts_in(normals[a->0], stem));
            assert(crate::text::starts_in(normals[b->0], stem));
        }
    }
}

/// A name that is spelled like the executable is suggested before any other; else
/// one that starts like it, and no shorter one does; else none. Short names are
/// not looked up.
pub proof fn the_best_name_is_suggested(
    stem: Seq<char>,
    normals: Seq<Seq<char>>,
    names: Seq<Seq<char>>,
    choice: Option<int>,
    k: int,
)
    requires
        is_choice(stem, normals, names, choice),
        0 <= k < normals.len(),
    ensures
        stem.len() < 3 ==> choice is None,
        stem.len() >= 3 && normals[k] == stem ==> choice is Some && normals[choice->0] == stem
            && choice->0 <= k,
        stem.len() >= 3 && stem.is_prefix_of(normals[k]) ==> choice is Some,
        choice is Some ==> 0 <= choice->0 < normals.len() && stem.is_prefix_of(normals[choice->0]),
        choice is Some && normals[choice->0] != stem && stem.is_prefix_of(normals[k])
            ==> crate::text::byte_count(names[choice->0]) <= crate::text::byte_count(names[k]),
{
    if normals[k] == stem {
        assert(some_exact(stem, normals));
    }
    assert(stem.is_prefix_of(normals[k]) ==> crate::text::starts_in(normals[k], stem));
    assert(stem.is_prefix_of(stem));
}

/// Two spellings of a name are the same where only letters and digits count, and
/// the case does not.
pub proof fn only_letters_and_digits_count(a: Seq<char>, b: Seq<char>, c: char)
    requires
        !is_alphanumeric(c),
    ensures
        letters(a + seq![c] + b) == letters(a + b),
        forall|i: int| 0 <= i < letters(a).len() ==> is_alphanumeric(#[trigger] letters(a)[i]),
{
    let p = |x: char| is_alphanumeric(x);
    Seq::filter_distributes_over_add(a + seq![c], b, p);
    Seq::filter_distributes_over_add(a, seq![c], p);
    Seq::filter_distributes_over_add(a, b, p);
    assert(seq![c].drop_last() =~= Seq::empty());
    reveal_with_fuel(Seq::filter, 2);
    assert(seq![c].filter(p) =~= Seq::empty());
    assert(a.filter(p) + Seq::empty() =~= a.filter(p));
    assert forall|i: int| 0 <= i < letters(a).len() implies is_alphanumeric(
        #[trigger] letters(a)[i],
    ) by {
        a.lemma_filter_pred(p, i);
    }
}

/// The extension of an executable is what follows its last dot.
pub proof fn an_extension_is_left_out(stem: Seq<char>, extension: Seq<char>)
    requires
        !extension.contains('.'),
    ensures
        without_extension(stem.push('.') + extension) == stem,
        without_extension(extension) == extension,
{
    let exe = stem.push('.') + extension;
    crate::text::nothing_after_last(exe, '.');
    crate::text::nothing_after_last(extension, '.');
    let dot = crate::text::last_index(exe, '.');
    assert(exe[stem.len() as int] == '.');
    if dot > stem.len() {
        assert(extension[dot - stem.len() - 1] == '.');
    }
    assert(exe.take(stem.len() as int) =~= stem);
}

/// Every letter and digit of ASCII counts, and no other character.
pub proof fn letters_and_digits_are_kept(c: char)
    ensures
        letters(seq![c]) == (if 'a' <= c <= 'z' || 'A' <= c <= 'Z' || '0' <= c <= '9' {
            seq![c]
        } else {
            Seq::<char>::empty()
        }),
{
    reveal_with_fuel(Seq::filter, 2);
    assert(seq![c].drop_last() =~= Seq::empty());
    assert(Seq::<char>::empty().push(c) =~= seq![c]);
}

} // verus!
