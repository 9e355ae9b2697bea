//! Searching and filtering sequences.

use vstd::prelude::*;

verus! {

/// The position of the first element that meets a condition.
pub open spec fn first_where<T>(s: Seq<T>, f: spec_fn(T) -> bool) -> Option<int>
    decreases s.len(),
{
    if s.len() == 0 {
        None
    } else if first_where(s.drop_last(), f) is Some {
        first_where(s.drop_last(), f)
    } else if f(s.last()) {
        Some(s.len() - 1)
    } else {
        None
    }
}

/// [`first_where`] finds the first element that meets the condition, and
/// nothing only where none does.
pub proof fn first_where_found<T>(s: Seq<T>, f: spec_fn(T) -> bool)
    ensures
        match first_where(s, f) {
            Some(i) => 0 <= i < s.len() && f(s[i]) && forall|k: int|
                0 <= k < i ==> !f(#[trigger] s[k]),
            None => forall|k: int| 0 <= k < s.len() ==> !f(#[trigger] s[k]),
        },
    decreases s.len(),
{
    if s.len() > 0 {
        let rest = s.drop_last();
        first_where_found(rest, f);
        assert forall|k: int| 0 <= k < rest.len() implies rest[k] == #[trigger] s[k] by {}
        if first_where(rest, f) is Some {
            let i = first_where(rest, f)->0;
            assert(f(s[i]));
            assert forall|k: int| 0 <= k < i implies !f(#[trigger] s[k]) by {
                assert(rest[k] == s[k]);
            }
        } else {
            assert forall|k: int| 0 <= k < s.len() - 1 implies !f(#[trigger] s[k]) by {
                assert(rest[k] == s[k]);
            }
        }
    }
}

/// The first element that meets a condition is the one [`first_where`] finds.
pub proof fn first_where_is<T>(s: Seq<T>, f: spec_fn(T) -> bool, i: int)
    requires
        0 <= i < s.len(),
        f(s[i]),
        forall|k: int| 0 <= k < i ==> !f(#[trigger] s[k]),
    ensures
        first_where(s, f) == Some(i),
{
    first_where_found(s, f);
}

/// Nothing is found where no element meets the condition.
pub proof fn first_where_none<T>(s: Seq<T>, f: spec_fn(T) -> bool)
    requires
        forall|k: int| 0 <= k < s.len() ==> !f(#[trigger] s[k]),
    ensures
        first_where(s, f) is None,
{
    first_where_found(s, f);
}

/// Filtering one more element.
pub proof fn filter_push<T>(s: Seq<T>, f: spec_fn(T) -> bool, x: T)
    ensures
        s.push(x).filter(f) == if f(x) {
            s.filter(f).push(x)
        } else {
            s.filter(f)
        },
{
    reveal(Seq::filter);
    assert(s.push(x).drop_last() =~= s);
}

/// Filtering nothing.
pub proof fn filter_empty<T>(f: spec_fn(T) -> bool)
    ensures
        Seq::<T>::empty().filter(f) == Seq::<T>::empty(),
{
    reveal(Seq::filter);
}

/// Filtering by what every element meets.
pub proof fn filter_all<T>(s: Seq<T>, f: spec_fn(T) -> bool)
    requires
        forall|x: T| #[trigger] f(x),
    ensures
        s.filter(f) == s,
    decreases s.len(),
{
    reveal(Seq::filter);
    if s.len() > 0 {
        filter_all(s.drop_last(), f);
        assert(f(s.last()));
        assert(s.drop_last().push(s.last()) =~= s);
    }
}

/// What the elements of a list hold.
pub open spec fn views<T: View>(s: Seq<T>) -> Seq<T::V> {
    s.map_values(|x: T| x@)
}

/// One more element holds one more thing.
pub proof fn views_push<T: View>(s: Seq<T>, x: T)
    ensures
        views(s.push(x)) == views(s).push(x@),
{
    assert(views(s.push(x)) =~= views(s).push(x@));
}

/// Lists of lists, one after the other.
pub open spec fn concat<T, U>(s: Seq<T>, f: spec_fn(T) -> Seq<U>) -> Seq<U>
    decreases s.len(),
{
    if s.len() == 0 {
        seq![]
    } else {
        concat(s.drop_last(), f) + f(s.last())
    }
}

/// One more list.
pub proof fn concat_take<T, U>(s: Seq<T>, f: spec_fn(T) -> Seq<U>, i: int)
    requires
        0 <= i < s.len(),
    ensures
        concat(s.take(i + 1), f) == concat(s.take(i), f) + f(s[i]),
{
    assert(s.take(i + 1).drop_last() =~= s.take(i));
}

/// Lists that are the same under a view make a list that is.
pub proof fn concat_same<T, U, W>(
    a: Seq<T>,
    f: spec_fn(T) -> Seq<U>,
    b: Seq<T>,
    g: spec_fn(T) -> Seq<U>,
    h: spec_fn(U) -> W,
)
    requires
        a.len() == b.len(),
        forall|i: int|
            0 <= i < a.len() ==> f(#[trigger] a[i]).map_values(h) == g(b[i]).map_values(h),
    ensures
        concat(a, f).map_values(h) == concat(b, g).map_values(h),
    decreases a.len(),
{
    if a.len() > 0 {
        let n = a.len() - 1;
        assert(f(a[n]).map_values(h) == g(b[n]).map_values(h));
        assert forall|i: int| 0 <= i < a.drop_last().len() implies f(
            #[trigger] a.drop_last()[i],
        ).map_values(h) == g(b.drop_last()[i]).map_values(h) by {
            assert(a.drop_last()[i] == a[i]);
        }
        concat_same(a.drop_last(), f, b.drop_last(), g, h);
        map_concat(concat(a.drop_last(), f), f(a.last()), h);
        map_concat(concat(b.drop_last(), g), g(b.last()), h);
    } else {
        assert(concat(a, f).map_values(h) =~= concat(b, g).map_values(h));
    }
}

/// Two lists under a view.
pub proof fn map_concat<U, W>(a: Seq<U>, b: Seq<U>, h: spec_fn(U) -> W)
    ensures
        (a + b).map_values(h) == a.map_values(h) + b.map_values(h),
{
    assert((a + b).map_values(h) =~= a.map_values(h) + b.map_values(h));
}

} // verus!
