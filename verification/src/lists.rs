//! Searching lists.
use vstd::prelude::*;

verus! {

/// The first element that satisfies a predicate.
pub open spec fn first_match<T>(s: Seq<T>, p: spec_fn(T) -> bool) -> Option<T>
    decreases s.len(),
{
    if s.len() == 0 {
        None
    } else if p(s.first()) {
        Some(s.first())
    } else {
        first_match(s.drop_first(), p)
    }
}

/// One step of a search from the front.
pub proof fn first_match_steps<T>(s: Seq<T>, p: spec_fn(T) -> bool, i: int)
    requires
        0 <= i < s.len(),
    ensures
        first_match(s.skip(i), p) == if p(s[i]) {
            Some(s[i])
        } else {
            first_match(s.skip(i + 1), p)
        },
{
    assert(s.skip(i).drop_first() =~= s.skip(i + 1));
}

/// A search finds nothing exactly where no element satisfies the predicate.
pub proof fn first_match_is_complete<T>(s: Seq<T>, p: spec_fn(T) -> bool)
    ensures
        first_match(s, p) is None <==> forall|i: int| 0 <= i < s.len() ==> !p(#[trigger] s[i]),
        first_match(s, p) matches Some(x) ==> p(x) && s.contains(x),
    decreases s.len(),
{
    if s.len() > 0 {
        let rest = s.drop_first();
        first_match_is_complete(rest, p);
        assert(s[0] == s.first());
        if !p(s.first()) {
            assert forall|i: int| 0 <= i < s.len() && first_match(rest, p) is None implies !p(
                #[trigger] s[i],
            ) by {
                if i > 0 {
                    assert(rest[i - 1] == s[i]);
                }
            }
            if first_match(rest, p) is Some {
                let x = first_match(rest, p)->0;
                let i = choose|i: int| 0 <= i < rest.len() && rest[i] == x;
                assert(s[i + 1] == x);
            }
        }
    }
}

/// The first position whose element satisfies a predicate.
pub open spec fn first_position<T>(s: Seq<T>, p: spec_fn(T) -> bool) -> Option<int> {
    if exists|i: int| 0 <= i < s.len() && p(#[trigger] s[i]) {
        Some(
            choose|i: int|
                0 <= i < s.len() && p(#[trigger] s[i]) && forall|j: int|
                    0 <= j < i ==> !p(#[trigger] s[j]),
        )
    } else {
        None
    }
}

/// A position is the first if its element satisfies the predicate and none
/// before it does.
pub proof fn first_position_is_least<T>(s: Seq<T>, p: spec_fn(T) -> bool, i: int)
    requires
        0 <= i < s.len(),
        p(s[i]),
        forall|j: int| 0 <= j < i ==> !p(#[trigger] s[j]),
    ensures
        first_position(s, p) == Some(i),
{
    let k = choose|k: int|
        0 <= k < s.len() && p(#[trigger] s[k]) && forall|j: int|
            0 <= j < k ==> !p(#[trigger] s[j]);
    assert(p(s[i]));
    assert(0 <= k < s.len() && p(s[k]));
    if k < i {
        assert(!p(s[k]));
    }
    if i < k {
        assert(!p(s[i]));
    }
}

proof fn some_position_is_least<T>(s: Seq<T>, p: spec_fn(T) -> bool, i: int)
    requires
        0 <= i < s.len(),
        p(s[i]),
    ensures
        exists|k: int|
            0 <= k < s.len() && p(#[trigger] s[k]) && forall|j: int|
                0 <= j < k ==> !p(#[trigger] s[j]),
    decreases i,
{
    if exists|j: int| 0 <= j < i && p(#[trigger] s[j]) {
        let j = choose|j: int| 0 <= j < i && p(#[trigger] s[j]);
        some_position_is_least(s, p, j);
    }
}

/// The first position is in range, its element satisfies the predicate, and
/// none before it does.
pub proof fn first_position_is_sound<T>(s: Seq<T>, p: spec_fn(T) -> bool)
    ensures
        first_position(s, p) matches Some(i) ==> 0 <= i < s.len() && p(s[i]) && forall|j: int|
            0 <= j < i ==> !p(#[trigger] s[j]),
{
    if first_position(s, p) is Some {
        let i = choose|i: int| 0 <= i < s.len() && p(#[trigger] s[i]);
        some_position_is_least(s, p, i);
    }
}

/// The last element that satisfies a predicate, by its position.
pub open spec fn last_position<T>(s: Seq<T>, p: spec_fn(T) -> bool) -> Option<int>
    decreases s.len(),
{
    if s.len() == 0 {
        None
    } else if p(s.last()) {
        Some(s.len() - 1)
    } else {
        last_position(s.drop_last(), p)
    }
}

/// A position found from the end is in range and satisfies the predicate.
pub proof fn last_position_is_sound<T>(s: Seq<T>, p: spec_fn(T) -> bool)
    ensures
        last_position(s, p) matches Some(i) ==> 0 <= i < s.len() && p(s[i]),
        last_position(s, p) is None <==> forall|i: int| 0 <= i < s.len() ==> !p(#[trigger] s[i]),
    decreases s.len(),
{
    if s.len() > 0 {
        last_position_is_sound(s.drop_last(), p);
        assert forall|i: int| 0 <= i < s.len() - 1 implies s[i] == #[trigger] s.drop_last()[i] by {}
        if !p(s.last()) && last_position(s.drop_last(), p) is None {
            assert forall|i: int| 0 <= i < s.len() implies !p(#[trigger] s[i]) by {
                if i < s.len() - 1 {
                    assert(s.drop_last()[i] == s[i]);
                }
            }
        }
    }
}

/// The matches among a prefix grow by the next element where it matches.
pub proof fn matches_grow<T>(s: Seq<T>, p: spec_fn(T) -> bool, i: int)
    requires
        0 <= i < s.len(),
    ensures
        s.take(i + 1).filter(p) == if p(s[i]) {
            s.take(i).filter(p).push(s[i])
        } else {
            s.take(i).filter(p)
        },
{
    reveal(Seq::filter);
    assert(s.take(i + 1).drop_last() =~= s.take(i));
    assert(s.take(i + 1).last() == s[i]);
}

/// An empty prefix holds no match.
pub proof fn no_match_at_first<T>(s: Seq<T>, p: spec_fn(T) -> bool)
    ensures
        s.take(0).filter(p) == Seq::<T>::empty(),
{
    reveal(Seq::filter);
    assert(s.take(0).len() == 0);
}

} // verus!
