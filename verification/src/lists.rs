//! Facts about lists that loops rely on.
use vstd::prelude::*;

verus! {

/// Filtering one element more keeps it if it passes.
pub proof fn filter_take_succ<A>(s: Seq<A>, p: spec_fn(A) -> bool, i: int)
    requires
        0 <= i < s.len(),
    ensures
        s.take(i + 1).filter(p) == (if p(s[i]) {
            s.take(i).filter(p).push(s[i])
        } else {
            s.take(i).filter(p)
        }),
{
    assert(s.take(i + 1) =~= s.take(i).push(s[i]));
    s.take(i).lemma_filter_push(s[i], p);
}

/// Filtering all elements.
pub proof fn filter_take_all<A>(s: Seq<A>, p: spec_fn(A) -> bool)
    ensures
        s.take(s.len() as int).filter(p) == s.filter(p),
        s.take(0).filter(p) == Seq::<A>::empty(),
{
    reveal(Seq::filter);
    assert(s.take(s.len() as int) =~= s);
    assert(s.take(0).filter(p) =~= Seq::<A>::empty());
}

/// A filter that everything passes changes nothing.
pub proof fn filter_keeps_all<A>(s: Seq<A>, pass: spec_fn(A) -> bool)
    requires
        forall|i: int| 0 <= i < s.len() ==> pass(#[trigger] s[i]),
    ensures
        s.filter(pass) == s,
    decreases s.len(),
{
    reveal(Seq::filter);
    if s.len() > 0 {
        filter_keeps_all(s.drop_last(), pass);
        assert(pass(s[s.len() - 1]));
        assert(s.drop_last().push(s.last()) =~= s);
    } else {
        assert(s.filter(pass) =~= s);
    }
}

/// The first place at which `p` holds.
pub open spec fn first_where<A>(s: Seq<A>, p: spec_fn(A) -> bool) -> Option<int>
    decreases s.len(),
{
    if s.len() == 0 {
        None
    } else {
        match first_where(s.drop_last(), p) {
            Some(i) => Some(i),
            None => if p(s.last()) {
                Some(s.len() - 1)
            } else {
                None
            },
        }
    }
}

/// The first place at which `p` holds is the one before which it holds
/// nowhere.
pub proof fn first_where_is_first<A>(s: Seq<A>, p: spec_fn(A) -> bool)
    ensures
        match first_where(s, p) {
            Some(i) => 0 <= i < s.len() && p(s[i]) && forall|k: int|
                0 <= k < i ==> !p(#[trigger] s[k]),
            None => forall|k: int| 0 <= k < s.len() ==> !p(#[trigger] s[k]),
        },
    decreases s.len(),
{
    if s.len() > 0 {
        let front = s.drop_last();
        first_where_is_first(front, p);
        assert forall|k: int| 0 <= k < front.len() implies #[trigger] s[k] == front[k] by {}
        if first_where(s, p) is None {
            assert forall|k: int| 0 <= k < s.len() implies !p(#[trigger] s[k]) by {
                if k < front.len() {
                    assert(!p(front[k]));
                }
            }
        }
        if first_where(front, p) is Some {
            let i = first_where(front, p)->0;
            assert forall|k: int| 0 <= k < i implies !p(#[trigger] s[k]) by {
                assert(!p(front[k]));
            }
        }
        if first_where(front, p) is None && p(s.last()) {
            assert forall|k: int| 0 <= k < s.len() - 1 implies !p(#[trigger] s[k]) by {
                assert(!p(front[k]));
            }
        }
    }
}

/// Whether `lt` orders values, with some of them on a level.
pub open spec fn is_weak_order<T>(lt: spec_fn(T, T) -> bool) -> bool {
    &&& forall|a: T| !#[trigger] lt(a, a)
    &&& forall|a: T, b: T, c: T| #[trigger] lt(a, b) && #[trigger] lt(b, c) ==> lt(a, c)
    &&& forall|a: T, b: T, c: T| #[trigger] lt(a, c) ==> #[trigger] lt(a, b) || lt(b, c)
}

/// The values on a level with `x`.
pub open spec fn on_level<T>(lt: spec_fn(T, T) -> bool, x: T) -> spec_fn(T) -> bool {
    |y: T| !lt(x, y) && !lt(y, x)
}

/// Whether no value comes before an earlier one.
pub open spec fn is_sorted<T>(lt: spec_fn(T, T) -> bool, s: Seq<T>) -> bool {
    forall|i: int, j: int| 0 <= i < j < s.len() ==> !lt(#[trigger] s[j], #[trigger] s[i])
}

/// Whether `r` holds the values of `s` in order, those on a level as they
/// stood in `s`.
pub open spec fn is_stable_sort<T>(lt: spec_fn(T, T) -> bool, s: Seq<T>, r: Seq<T>) -> bool {
    &&& is_sorted(lt, r)
    &&& r.len() == s.len()
    &&& forall|x: T| r.filter(#[trigger] on_level(lt, x)) == s.filter(on_level(lt, x))
}

proof fn filter_none<T>(s: Seq<T>, p: spec_fn(T) -> bool)
    requires
        forall|i: int| 0 <= i < s.len() ==> !p(#[trigger] s[i]),
    ensures
        s.filter(p) == Seq::<T>::empty(),
    decreases s.len(),
{
    reveal(Seq::filter);
    if s.len() > 0 {
        filter_none(s.drop_last(), p);
    } else {
        assert(s.filter(p) =~= Seq::<T>::empty());
    }
}

proof fn insert_keeps_stable<T>(lt: spec_fn(T, T) -> bool, s: Seq<T>, r: Seq<T>, x: T, k: int)
    requires
        is_weak_order(lt),
        is_stable_sort(lt, s, r),
        0 <= k <= r.len(),
        forall|i: int| 0 <= i < k ==> !lt(x, #[trigger] r[i]),
        forall|i: int| k <= i < r.len() ==> lt(x, #[trigger] r[i]),
    ensures
        is_stable_sort(lt, s.push(x), r.insert(k, x)),
{
    let after = r.insert(k, x);
    assert forall|i: int, j: int| 0 <= i < j < after.len() implies !lt(
        #[trigger] after[j],
        #[trigger] after[i],
    ) by {
        if j < k {
            assert(after[i] == r[i] && after[j] == r[j]);
        } else if j == k {
            assert(after[i] == r[i]);
        } else if i == k {
            assert(after[j] == r[j - 1]);
            if lt(r[j - 1], x) {
                assert(lt(x, r[j - 1]));
                assert(lt(x, x));
            }
        } else {
            let a = if i < k {
                i
            } else {
                i - 1
            };
            assert(after[i] == r[a] && after[j] == r[j - 1]);
        }
    }
    let front = r.take(k);
    let back = r.skip(k);
    assert(r =~= front + back);
    assert(after =~= front + seq![x] + back);
    assert forall|y: T| after.filter(#[trigger] on_level(lt, y)) == s.push(x).filter(
        on_level(lt, y),
    ) by {
        let p = on_level(lt, y);
        Seq::filter_distributes_over_add(front, back, p);
        Seq::filter_distributes_over_add(front + seq![x], back, p);
        Seq::filter_distributes_over_add(front, seq![x], p);
        s.lemma_filter_push(x, p);
        Seq::<T>::empty().lemma_filter_push(x, p);
        filter_none(Seq::<T>::empty(), p);
        assert(Seq::<T>::empty().push(x) =~= seq![x]);
        if p(x) {
            assert forall|i: int| 0 <= i < back.len() implies !p(#[trigger] back[i]) by {
                let z = back[i];
                assert(z == r[k + i]);
                assert(lt(x, z));
                assert(lt(x, y) || lt(y, z));
            }
            filter_none(back, p);
            assert(after.filter(p) =~= s.push(x).filter(p));
        } else {
            assert(after.filter(p) =~= s.push(x).filter(p));
        }
    }
}

/// Sorts a list by `less`, values on a level in the order in which they
/// stand.
pub(crate) fn stable_sort<T, F: Fn(&T, &T) -> bool>(
    list: Vec<T>,
    less: F,
    Ghost(lt): Ghost<spec_fn(T, T) -> bool>,
) -> (r: Vec<T>)
    requires
        is_weak_order(lt),
        forall|a: &T, b: &T| call_requires(less, (a, b)),
        forall|a: &T, b: &T, c: bool| call_ensures(less, (a, b), c) ==> c == lt(*a, *b),
    ensures
        is_stable_sort(lt, list@, r@),
{
    let ghost all = list@;
    let mut rest = list;
    let mut out: Vec<T> = Vec::new();
    assert(all.take(0) =~= Seq::<T>::empty());
    assert(is_stable_sort(lt, all.take(0), out@)) by {
        assert(out@ =~= all.take(0));
    }
    while rest.len() > 0
        invariant
            is_weak_order(lt),
            forall|a: &T, b: &T| call_requires(less, (a, b)),
            forall|a: &T, b: &T, c: bool| call_ensures(less, (a, b), c) ==> c == lt(*a, *b),
            rest.len() <= all.len(),
            rest@ == all.skip(all.len() - rest.len()),
            is_stable_sort(lt, all.take(all.len() - rest.len()), out@),
        decreases rest.len(),
    {
        let ghost n = all.len() - rest.len();
        let x = rest.remove(0);
        assert(x == all[n]);
        assert(rest@ =~= all.skip(n + 1));
        let mut k: usize = out.len();
        while k > 0 && less(&x, &out[k - 1])
            invariant
                k <= out.len(),
                forall|a: &T, b: &T| call_requires(less, (a, b)),
                forall|a: &T, b: &T, c: bool| call_ensures(less, (a, b), c) ==> c == lt(*a, *b),
                forall|i: int| k <= i < out.len() ==> lt(x, #[trigger] out@[i]),
            decreases k,
        {
            k = k - 1;
        }
        proof {
            assert forall|i: int| 0 <= i < k implies !lt(x, #[trigger] out@[i]) by {
                if lt(x, out@[i]) {
                    let last = out@[k - 1];
                    assert(!lt(x, last));
                    if i < k - 1 {
                        assert(!lt(out@[k - 1], out@[i]));
                        assert(lt(x, last) || lt(last, out@[i]));
                    }
                }
            }
            insert_keeps_stable(lt, all.take(n), out@, x, k as int);
            assert(all.take(n + 1) =~= all.take(n).push(x));
        }
        out.insert(k, x);
    }
    assert(all.take(all.len() as int) =~= all);
    out
}

/// Sorting keeps every value and adds none.
pub proof fn sorting_keeps_the_values<T>(lt: spec_fn(T, T) -> bool, s: Seq<T>, r: Seq<T>, x: T)
    requires
        is_weak_order(lt),
        is_stable_sort(lt, s, r),
    ensures
        r.len() == s.len(),
        s.contains(x) <==> r.contains(x),
{
    let p = on_level(lt, x);
    assert(p(x));
    filtered_values_stay(s, p, x);
    filtered_values_stay(r, p, x);
    assert(r.filter(p) == s.filter(p));
}

proof fn filtered_values_stay<T>(s: Seq<T>, p: spec_fn(T) -> bool, x: T)
    requires
        p(x),
    ensures
        s.contains(x) <==> s.filter(p).contains(x),
{
    if s.contains(x) {
        let i = choose|i: int| 0 <= i < s.len() && s[i] == x;
        s.lemma_filter_contains(p, i);
    }
    if s.filter(p).contains(x) {
        s.lemma_filter_contains_rev(p, x);
    }
}

/// Sorting puts no value before one that it comes after, and leaves values on a
/// level as they stood.
pub proof fn sorting_orders_the_values<T>(
    lt: spec_fn(T, T) -> bool,
    s: Seq<T>,
    r: Seq<T>,
    i: int,
    j: int,
)
    requires
        is_stable_sort(lt, s, r),
        0 <= i < j < r.len(),
    ensures
        !lt(r[j], r[i]),
        r.filter(|y: T| !lt(r[i], y) && !lt(y, r[i])) == s.filter(
            |y: T| !lt(r[i], y) && !lt(y, r[i]),
        ),
{
    let p = on_level(lt, r[i]);
    assert(p =~= (|y: T| !lt(r[i], y) && !lt(y, r[i])));
    assert(r.filter(p) == s.filter(p));
}

} // verus!
