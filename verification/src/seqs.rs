//! Searching a sequence for the first or the last element with a property.

use vstd::prelude::*;

verus! {

/// The least index at or after `from` whose element satisfies `p`.
pub open spec fn first_where_from<T>(s: Seq<T>, p: spec_fn(T) -> bool, from: int) -> Option<int>
    decreases s.len() - from,
{
    if from < 0 || from >= s.len() {
        None
    } else if p(s[from]) {
        Some(from)
    } else {
        first_where_from(s, p, from + 1)
    }
}

/// The least index whose element satisfies `p`.
pub open spec fn first_where<T>(s: Seq<T>, p: spec_fn(T) -> bool) -> Option<int> {
    first_where_from(s, p, 0)
}

/// The greatest index whose element satisfies `p`.
pub open spec fn last_where<T>(s: Seq<T>, p: spec_fn(T) -> bool) -> Option<int>
    decreases s.len(),
{
    if s.len() == 0 {
        None
    } else if p(s.last()) {
        Some(s.len() - 1)
    } else {
        last_where(s.drop_last(), p)
    }
}

/// Some element of `s` satisfies `p`.
pub open spec fn any_where<T>(s: Seq<T>, p: spec_fn(T) -> bool) -> bool {
    exists|i: int| 0 <= i < s.len() && p(#[trigger] s[i])
}

/// The number of elements of `s` that satisfy `p`.
pub open spec fn count_where<T>(s: Seq<T>, p: spec_fn(T) -> bool) -> nat
    decreases s.len(),
{
    if s.len() == 0 {
        0
    } else {
        count_where(s.drop_last(), p) + if p(s.last()) {
            1nat
        } else {
            0nat
        }
    }
}

/// The elements of `s` that satisfy `p`, in their order.
pub open spec fn keep_where<T>(s: Seq<T>, p: spec_fn(T) -> bool) -> Seq<T>
    decreases s.len(),
{
    if s.len() == 0 {
        Seq::empty()
    } else if p(s.last()) {
        keep_where(s.drop_last(), p).push(s.last())
    } else {
        keep_where(s.drop_last(), p)
    }
}

/// Keeping over a sequence with one more element at its end.
pub proof fn keep_where_push<T>(s: Seq<T>, p: spec_fn(T) -> bool, x: T)
    ensures
        keep_where(s.push(x), p) == if p(x) {
            keep_where(s, p).push(x)
        } else {
            keep_where(s, p)
        },
{
    assert(s.push(x).drop_last() =~= s);
}

/// What is kept satisfies the property, was in the sequence, and is no longer
/// than it; if something was dropped, it is shorter.
pub proof fn keep_where_facts<T>(s: Seq<T>, p: spec_fn(T) -> bool)
    ensures
        keep_where(s, p).len() <= s.len(),
        forall|i: int| 0 <= i < keep_where(s, p).len() ==> p(#[trigger] keep_where(s, p)[i]),
        forall|i: int|
            0 <= i < keep_where(s, p).len() ==> s.contains(#[trigger] keep_where(s, p)[i]),
        forall|i: int| 0 <= i < s.len() && p(s[i]) ==> keep_where(s, p).contains(#[trigger] s[i]),
        keep_where(s, p).len() < s.len() <==> any_where(s, |x: T| !p(x)),
    decreases s.len(),
{
    let q = |x: T| !p(x);
    if s.len() > 0 {
        let t = s.drop_last();
        keep_where_facts(t, p);
        let kt = keep_where(t, p);
        let ks = keep_where(s, p);
        assert forall|i: int| 0 <= i < ks.len() implies s.contains(#[trigger] ks[i]) by {
            if i < kt.len() {
                assert(ks[i] == kt[i]);
                let j = choose|j: int| 0 <= j < t.len() && t[j] == kt[i];
                assert(s[j] == kt[i]);
            } else {
                assert(ks[i] == s.last());
                assert(s[s.len() - 1] == s.last());
            }
        }
        assert forall|i: int| 0 <= i < s.len() && p(s[i]) implies ks.contains(#[trigger] s[i]) by {
            if i < t.len() {
                assert(t[i] == s[i]);
                assert(kt.contains(t[i]));
                let j = choose|j: int| 0 <= j < kt.len() && kt[j] == t[i];
                assert(ks[j] == s[i]);
            } else {
                assert(ks[ks.len() - 1] == s[i]);
            }
        }
        if any_where(t, q) {
            let j = choose|j: int| 0 <= j < t.len() && q(#[trigger] t[j]);
            assert(q(s[j]));
        }
        if any_where(s, q) {
            let j = choose|j: int| 0 <= j < s.len() && q(#[trigger] s[j]);
            if j < t.len() {
                assert(q(t[j]));
            }
        }
        if !p(s.last()) {
            assert(q(s[s.len() - 1]));
        }
    }
}

/// What `first_where_from` finds has the property, and nothing from `from`
/// up to it has; where it finds nothing, nothing from `from` on has it.
pub proof fn first_where_from_is_least<T>(s: Seq<T>, p: spec_fn(T) -> bool, from: int)
    requires
        0 <= from,
    ensures
        match first_where_from(s, p, from) {
            Some(i) => {
                &&& from <= i < s.len()
                &&& p(s[i])
                &&& forall|j: int| from <= j < i ==> !p(#[trigger] s[j])
            },
            None => forall|j: int| from <= j < s.len() ==> !p(#[trigger] s[j]),
        },
    decreases s.len() - from,
{
    if from < s.len() && !p(s[from]) {
        first_where_from_is_least(s, p, from + 1);
    }
}

/// `first_where` returns the least index with the property, or `None` when no
/// element has it.
pub proof fn first_where_is_least<T>(s: Seq<T>, p: spec_fn(T) -> bool)
    ensures
        match first_where(s, p) {
            Some(i) => {
                &&& 0 <= i < s.len()
                &&& p(s[i])
                &&& forall|j: int| 0 <= j < i ==> !p(#[trigger] s[j])
            },
            None => forall|j: int| 0 <= j < s.len() ==> !p(#[trigger] s[j]),
        },
        first_where(s, p) is Some <==> any_where(s, p),
{
    first_where_from_is_least(s, p, 0);
}

/// An index with the property that no smaller index has is the first one.
pub proof fn first_where_found<T>(s: Seq<T>, p: spec_fn(T) -> bool, i: int)
    requires
        0 <= i < s.len(),
        p(s[i]),
        forall|j: int| 0 <= j < i ==> !p(#[trigger] s[j]),
    ensures
        first_where(s, p) == Some(i),
{
    first_where_is_least(s, p);
}

/// Where no element has the property there is no first one.
pub proof fn first_where_absent<T>(s: Seq<T>, p: spec_fn(T) -> bool)
    requires
        forall|j: int| 0 <= j < s.len() ==> !p(#[trigger] s[j]),
    ensures
        first_where(s, p) is None,
{
    first_where_is_least(s, p);
}

/// `last_where` returns the greatest index with the property, or `None` when
/// no element has it.
pub proof fn last_where_is_greatest<T>(s: Seq<T>, p: spec_fn(T) -> bool)
    ensures
        match last_where(s, p) {
            Some(i) => {
                &&& 0 <= i < s.len()
                &&& p(s[i])
                &&& forall|j: int| i < j < s.len() ==> !p(#[trigger] s[j])
            },
            None => forall|j: int| 0 <= j < s.len() ==> !p(#[trigger] s[j]),
        },
        last_where(s, p) is Some <==> any_where(s, p),
    decreases s.len(),
{
    if s.len() > 0 && !p(s.last()) {
        let t = s.drop_last();
        last_where_is_greatest(t, p);
        assert forall|j: int| 0 <= j < t.len() implies s[j] == t[j] by {}
        match last_where(t, p) {
            Some(i) => {
                assert(s[i] == t[i]);
                assert forall|j: int| i < j < s.len() implies !p(#[trigger] s[j]) by {
                    if j < t.len() {
                        assert(s[j] == t[j]);
                    }
                }
            },
            None => {
                assert forall|j: int| 0 <= j < s.len() implies !p(#[trigger] s[j]) by {
                    if j < t.len() {
                        assert(s[j] == t[j]);
                    }
                }
            },
        }
    }
}

/// An index with the property that no greater index has is the last one.
pub proof fn last_where_found<T>(s: Seq<T>, p: spec_fn(T) -> bool, i: int)
    requires
        0 <= i < s.len(),
        p(s[i]),
        forall|j: int| i < j < s.len() ==> !p(#[trigger] s[j]),
    ensures
        last_where(s, p) == Some(i),
{
    last_where_is_greatest(s, p);
}

/// Where no element has the property there is no last one.
pub proof fn last_where_absent<T>(s: Seq<T>, p: spec_fn(T) -> bool)
    requires
        forall|j: int| 0 <= j < s.len() ==> !p(#[trigger] s[j]),
    ensures
        last_where(s, p) is None,
{
    last_where_is_greatest(s, p);
}

/// No more elements have a property than there are elements.
pub proof fn count_where_bound<T>(s: Seq<T>, p: spec_fn(T) -> bool)
    ensures
        count_where(s, p) <= s.len(),
    decreases s.len(),
{
    if s.len() > 0 {
        count_where_bound(s.drop_last(), p);
    }
}

} // verus!
