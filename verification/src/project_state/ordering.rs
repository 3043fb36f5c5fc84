//! Stable ordering and paging of query rows.
use vstd::prelude::*;

use crate::model::{
    ActivitySummaryProjection, ChangeSummaryProjection, FeatureSummaryProjection,
    GoalIndexProjection, GoalPriority, GoalStatus,
};
use crate::text::{text_eq, text_less};

verus! {

/// What a row is ordered by.
pub enum SortValue {
    Number(u64),
    MaybeNumber(Option<u64>),
    Text(String),
    MaybeText(Option<String>),
    /// The larger number first, then by text.
    Newest(u64, String),
}

/// What a row is ordered by, and the id that decides between equal rows.
pub struct SortKey {
    pub value: SortValue,
    pub id: String,
}

/// A sort value by its contents.
pub ghost enum SortValueView {
    Number(int),
    MaybeNumber(Option<int>),
    Text(Seq<char>),
    MaybeText(Option<Seq<char>>),
    Newest(int, Seq<char>),
}

/// A sort key by its contents.
pub ghost struct SortKeyView {
    pub value: SortValueView,
    pub id: Seq<char>,
}

impl View for SortValue {
    type V = SortValueView;

    open spec fn view(&self) -> SortValueView {
        match *self {
            SortValue::Number(n) => SortValueView::Number(n as int),
            SortValue::MaybeNumber(n) => SortValueView::MaybeNumber(
                match n {
                    Some(x) => Some(x as int),
                    None => None,
                },
            ),
            SortValue::Text(t) => SortValueView::Text(t@),
            SortValue::MaybeText(t) => SortValueView::MaybeText(crate::text::maybe_view(t)),
            SortValue::Newest(n, t) => SortValueView::Newest(n as int, t@),
        }
    }
}

impl View for SortKey {
    type V = SortKeyView;

    open spec fn view(&self) -> SortKeyView {
        SortKeyView { value: self.value@, id: self.id@ }
    }
}

/// Values that can stand in one column.
pub open spec fn comparable(a: SortValueView, b: SortValueView) -> bool {
    match (a, b) {
        (SortValueView::Number(_), SortValueView::Number(_)) => true,
        (SortValueView::MaybeNumber(_), SortValueView::MaybeNumber(_)) => true,
        (SortValueView::Text(_), SortValueView::Text(_)) => true,
        (SortValueView::MaybeText(_), SortValueView::MaybeText(_)) => true,
        (SortValueView::Newest(_, _), SortValueView::Newest(_, _)) => true,
        _ => false,
    }
}

/// One value of a column stands before another. An absent value stands before
/// every present one.
pub open spec fn value_before(a: SortValueView, b: SortValueView) -> bool {
    match (a, b) {
        (SortValueView::Number(x), SortValueView::Number(y)) => x < y,
        (SortValueView::MaybeNumber(x), SortValueView::MaybeNumber(y)) => match (x, y) {
            (Some(m), Some(n)) => m < n,
            (None, Some(_)) => true,
            _ => false,
        },
        (SortValueView::Text(x), SortValueView::Text(y)) => crate::text::text_before(x, y),
        (SortValueView::MaybeText(x), SortValueView::MaybeText(y)) => match (x, y) {
            (Some(m), Some(n)) => crate::text::text_before(m, n),
            (None, Some(_)) => true,
            _ => false,
        },
        (SortValueView::Newest(m, x), SortValueView::Newest(n, y)) => m > n || (m == n
            && crate::text::text_before(x, y)),
        _ => false,
    }
}

/// One key stands before another: by value, then by id.
pub open spec fn key_before(a: SortKeyView, b: SortKeyView) -> bool {
    value_before(a.value, b.value) || (!value_before(b.value, a.value) && crate::text::text_before(
        a.id,
        b.id,
    ))
}

/// One key stands strictly before another in the asked direction.
pub open spec fn comes_first(a: SortKeyView, b: SortKeyView, ascending: bool) -> bool {
    if ascending {
        key_before(a, b)
    } else {
        key_before(b, a)
    }
}

/// An order of positions with one more position put after every position that
/// it does not come before.
pub open spec fn placed(
    keys: Seq<SortKeyView>,
    ascending: bool,
    order: Seq<int>,
    at: int,
) -> Seq<int>
    decreases order.len(),
{
    if order.len() > 0 && comes_first(keys[at], keys[order.last()], ascending) {
        placed(keys, ascending, order.drop_last(), at).push(order.last())
    } else {
        order.push(at)
    }
}

/// The positions of the first `n` keys in order.
pub open spec fn stable_order(keys: Seq<SortKeyView>, ascending: bool, n: nat) -> Seq<int>
    decreases n,
{
    if n == 0 {
        Seq::empty()
    } else {
        placed(keys, ascending, stable_order(keys, ascending, (n - 1) as nat), n - 1)
    }
}

/// The rows in the order of their keys.
pub open spec fn arranged<T>(rows: Seq<T>, keys: Seq<SortKeyView>, ascending: bool) -> Seq<T> {
    stable_order(keys, ascending, rows.len()).map_values(|i: int| rows[i])
}

/// At most `limit` rows, from `offset` on.
pub open spec fn page<T>(rows: Seq<T>, offset: int, limit: int) -> Seq<T> {
    let from = if offset < rows.len() { offset } else { rows.len() as int };
    let to = if from + limit < rows.len() { from + limit } else { rows.len() as int };
    rows.subrange(from, to)
}

/// Where a page of `total` rows begins and ends.
pub fn page_bounds(total: usize, offset: usize, limit: usize) -> (r: (usize, usize))
    ensures
        r.0 <= r.1 <= total,
        r.0 == if offset < total { offset } else { total },
        r.1 == if r.0 + limit < total { r.0 + limit } else { total as int },
{
    let from: usize = if offset < total { offset } else { total };
    let to: usize = if limit < total - from { from + limit } else { total };
    (from, to)
}

fn maybe_text_less(a: &Option<String>, b: &Option<String>) -> (r: bool)
    ensures
        r == value_before(
            SortValueView::MaybeText(crate::text::maybe_view(*a)),
            SortValueView::MaybeText(crate::text::maybe_view(*b)),
        ),
{
    match (a, b) {
        (Some(x), Some(y)) => text_less(x.as_str(), y.as_str()),
        (None, Some(_)) => true,
        _ => false,
    }
}

fn value_less(a: &SortValue, b: &SortValue) -> (r: bool)
    ensures
        r == value_before(a@, b@),
{
    match (a, b) {
        (SortValue::Number(x), SortValue::Number(y)) => *x < *y,
        (SortValue::MaybeNumber(x), SortValue::MaybeNumber(y)) => match (x, y) {
            (Some(m), Some(n)) => *m < *n,
            (None, Some(_)) => true,
            _ => false,
        },
        (SortValue::Text(x), SortValue::Text(y)) => text_less(x.as_str(), y.as_str()),
        (SortValue::MaybeText(x), SortValue::MaybeText(y)) => maybe_text_less(x, y),
        (SortValue::Newest(m, x), SortValue::Newest(n, y)) => *m > *n || (*m == *n && text_less(
            x.as_str(),
            y.as_str(),
        )),
        _ => false,
    }
}

fn key_less(a: &SortKey, b: &SortKey) -> (r: bool)
    ensures
        r == key_before(a@, b@),
{
    value_less(&a.value, &b.value) || (!value_less(&b.value, &a.value) && text_less(
        a.id.as_str(),
        b.id.as_str(),
    ))
}

/// The views of a list of keys.
pub open spec fn key_views(keys: Seq<SortKey>) -> Seq<SortKeyView> {
    keys.map_values(|k: SortKey| k@)
}

/// Positions as numbers.
pub open spec fn positions(order: Seq<usize>) -> Seq<int> {
    order.map_values(|i: usize| i as int)
}

proof fn placed_at(keys: Seq<SortKeyView>, ascending: bool, order: Seq<int>, at: int, p: int)
    requires
        0 <= p <= order.len(),
        forall|j: int|
            p <= j < order.len() ==> comes_first(keys[at], keys[#[trigger] order[j]], ascending),
        p > 0 ==> !comes_first(keys[at], keys[order[p - 1]], ascending),
    ensures
        placed(keys, ascending, order, at) == order.insert(p, at),
    decreases order.len(),
{
    if p < order.len() {
        let short = order.drop_last();
        assert(comes_first(keys[at], keys[order[order.len() - 1]], ascending));
        assert forall|j: int| p <= j < short.len() implies comes_first(
            keys[at],
            keys[#[trigger] short[j]],
            ascending,
        ) by {
            assert(short[j] == order[j]);
        }
        placed_at(keys, ascending, short, at, p);
        assert(short.insert(p, at).push(order.last()) =~= order.insert(p, at));
    } else {
        assert(order.push(at) =~= order.insert(p, at));
    }
}

proof fn placing_adds_a_position(keys: Seq<SortKeyView>, ascending: bool, order: Seq<int>, at: int)
    ensures
        placed(keys, ascending, order, at).len() == order.len() + 1,
        placed(keys, ascending, order, at).to_multiset() == order.to_multiset().insert(at),
    decreases order.len(),
{
    broadcast use vstd::seq_lib::group_to_multiset_ensures;

    if order.len() > 0 && comes_first(keys[at], keys[order.last()], ascending) {
        placing_adds_a_position(keys, ascending, order.drop_last(), at);
        assert(order.drop_last().push(order.last()) =~= order);
        assert(placed(keys, ascending, order, at).to_multiset()
            =~= order.to_multiset().insert(at));
    }
}

/// Every position of a list occurs in its order exactly once.
pub proof fn orders_keep_every_row(keys: Seq<SortKeyView>, ascending: bool, n: nat)
    ensures
        stable_order(keys, ascending, n).len() == n,
        stable_order(keys, ascending, n).no_duplicates(),
        forall|i: int| #[trigger] stable_order(keys, ascending, n).contains(i) <==> 0 <= i < n,
    decreases n,
{
    broadcast use vstd::seq_lib::group_to_multiset_ensures;

    if n > 0 {
        let short = stable_order(keys, ascending, (n - 1) as nat);
        let long = stable_order(keys, ascending, n);
        orders_keep_every_row(keys, ascending, (n - 1) as nat);
        placing_adds_a_position(keys, ascending, short, n - 1);
        assert forall|i: int| #[trigger] long.contains(i) <==> 0 <= i < n by {
            assert(long.contains(i) <==> long.to_multiset().count(i) > 0);
            assert(short.contains(i) <==> short.to_multiset().count(i) > 0);
        }
        assert(long.no_duplicates()) by {
            short.lemma_multiset_has_no_duplicates();
            assert(!short.contains(n - 1));
            assert forall|x: int| long.to_multiset().count(x) <= 1 by {
                if short.to_multiset().count(x) > 0 {
                    assert(short.contains(x));
                    assert(short.to_multiset().contains(x));
                }
            }
            long.lemma_multiset_has_no_duplicates_conv();
        }
    }
}

proof fn values_are_ordered(a: SortValueView, b: SortValueView)
    requires
        comparable(a, b),
    ensures
        value_before(a, b) ==> !value_before(b, a),
        value_before(a, b) || value_before(b, a) || a == b,
        !value_before(a, a),
{
    match (a, b) {
        (SortValueView::Text(x), SortValueView::Text(y)) => {
            crate::text::text_order_is_total(x, y);
            crate::text::text_order_is_total(x, x);
        },
        (SortValueView::MaybeText(Some(x)), SortValueView::MaybeText(Some(y))) => {
            crate::text::text_order_is_total(x, y);
            crate::text::text_order_is_total(x, x);
        },
        (SortValueView::MaybeText(Some(x)), _) => {
            crate::text::text_order_is_total(x, x);
        },
        (SortValueView::Newest(_, x), SortValueView::Newest(_, y)) => {
            crate::text::text_order_is_total(x, y);
            crate::text::text_order_is_total(x, x);
        },
        _ => {},
    }
}

proof fn values_chain(a: SortValueView, b: SortValueView, c: SortValueView)
    requires
        comparable(a, b),
        comparable(b, c),
        value_before(a, b),
        value_before(b, c),
    ensures
        value_before(a, c),
{
    match (a, b, c) {
        (SortValueView::Text(x), SortValueView::Text(y), SortValueView::Text(z)) => {
            crate::text::text_order_is_transitive(x, y, z);
        },
        (
            SortValueView::MaybeText(Some(x)),
            SortValueView::MaybeText(Some(y)),
            SortValueView::MaybeText(Some(z)),
        ) => {
            crate::text::text_order_is_transitive(x, y, z);
        },
        (
            SortValueView::Newest(_, x),
            SortValueView::Newest(_, y),
            SortValueView::Newest(_, z),
        ) => {
            if crate::text::text_before(x, y) && crate::text::text_before(y, z) {
                crate::text::text_order_is_transitive(x, y, z);
            }
        },
        _ => {},
    }
}

proof fn keys_are_ordered(a: SortKeyView, b: SortKeyView)
    requires
        comparable(a.value, b.value),
    ensures
        key_before(a, b) ==> !key_before(b, a),
        key_before(a, b) || key_before(b, a) || a == b,
        !key_before(a, a),
{
    values_are_ordered(a.value, b.value);
    values_are_ordered(b.value, a.value);
    crate::text::text_order_is_total(a.id, b.id);
    crate::text::text_order_is_total(a.id, a.id);
}

proof fn keys_chain(a: SortKeyView, b: SortKeyView, c: SortKeyView)
    requires
        comparable(a.value, b.value),
        comparable(b.value, c.value),
        key_before(a, b),
        key_before(b, c),
    ensures
        key_before(a, c),
{
    values_are_ordered(a.value, b.value);
    values_are_ordered(b.value, c.value);
    if value_before(a.value, b.value) && value_before(b.value, c.value) {
        values_chain(a.value, b.value, c.value);
    }
    if crate::text::text_before(a.id, b.id) && crate::text::text_before(b.id, c.id) {
        crate::text::text_order_is_transitive(a.id, b.id, c.id);
    }
}

/// Keys of one column.
pub open spec fn one_column(keys: Seq<SortKeyView>) -> bool {
    forall|i: int, j: int|
        0 <= i < keys.len() && 0 <= j < keys.len() ==> comparable(
            (#[trigger] keys[i]).value,
            (#[trigger] keys[j]).value,
        )
}

/// Rows stand in the order of their keys, and rows with equal keys stand as
/// they stood before.
pub open spec fn in_order(keys: Seq<SortKeyView>, ascending: bool, order: Seq<int>) -> bool {
    forall|i: int, j: int|
        0 <= i < j < order.len() ==> {
            let a = #[trigger] order[i];
            let b = #[trigger] order[j];
            &&& !comes_first(keys[b], keys[a], ascending)
            &&& keys[a] == keys[b] ==> a < b
        }
}

/// Sorted rows stand in the order of their keys, and sorting is stable.
pub proof fn sorted_rows_are_in_order(keys: Seq<SortKeyView>, ascending: bool, n: nat)
    requires
        one_column(keys),
        n <= keys.len(),
    ensures
        in_order(keys, ascending, stable_order(keys, ascending, n)),
    decreases n,
{
    if n > 0 {
        let m = (n - 1) as nat;
        sorted_rows_are_in_order(keys, ascending, m);
        orders_keep_every_row(keys, ascending, m);
        let order = stable_order(keys, ascending, m);
        assert forall|i: int| 0 <= i < order.len() implies 0 <= #[trigger] order[i] < n - 1 by {
            assert(order.contains(order[i]));
        }
        placed_in_order(keys, ascending, order, n - 1);
    }
}

proof fn placed_in_order(keys: Seq<SortKeyView>, ascending: bool, order: Seq<int>, at: int)
    requires
        one_column(keys),
        0 <= at < keys.len(),
        forall|i: int| 0 <= i < order.len() ==> 0 <= #[trigger] order[i] < at,
        in_order(keys, ascending, order),
    ensures
        in_order(keys, ascending, placed(keys, ascending, order, at)),
        forall|i: int|
            0 <= i < placed(keys, ascending, order, at).len() ==> {
                let a = #[trigger] placed(keys, ascending, order, at)[i];
                a == at || order.contains(a)
            },
    decreases order.len(),
{
    let out = placed(keys, ascending, order, at);
    if order.len() > 0 && comes_first(keys[at], keys[order.last()], ascending) {
        let short = order.drop_last();
        let last = order.last();
        assert forall|i: int| 0 <= i < short.len() implies 0 <= #[trigger] short[i] < at by {
            assert(short[i] == order[i]);
        }
        placed_in_order(keys, ascending, short, at);
        let front = placed(keys, ascending, short, at);
        assert(out == front.push(last));
        keys_are_ordered(keys[at], keys[last]);
        keys_are_ordered(keys[last], keys[at]);
        assert forall|i: int, j: int| 0 <= i < j < out.len() implies {
            let a = #[trigger] out[i];
            let b = #[trigger] out[j];
            &&& !comes_first(keys[b], keys[a], ascending)
            &&& keys[a] == keys[b] ==> a < b
        } by {
            if j == out.len() - 1 {
                let a = front[i];
                if a != at {
                    let k = short.index_of(a);
                    assert(order[k] == a && order[order.len() - 1] == last);
                }
            } else {
                assert(out[i] == front[i] && out[j] == front[j]);
            }
        }
        assert forall|i: int| 0 <= i < out.len() implies {
            let a = #[trigger] out[i];
            a == at || order.contains(a)
        } by {
            if i < front.len() {
                assert(out[i] == front[i]);
                if front[i] != at {
                    let k = short.index_of(front[i]);
                    assert(order[k] == front[i]);
                }
            } else {
                assert(order[order.len() - 1] == last);
            }
        }
    } else {
        assert forall|i: int, j: int| 0 <= i < j < out.len() implies {
            let a = #[trigger] out[i];
            let b = #[trigger] out[j];
            &&& !comes_first(keys[b], keys[a], ascending)
            &&& keys[a] == keys[b] ==> a < b
        } by {
            if j == out.len() - 1 {
                assert(out[i] == order[i]);
                let a = order[i];
                let last = order.last();
                if i < order.len() - 1 {
                    assert(order[i] == a && order[order.len() - 1] == last);
                    keys_are_ordered(keys[a], keys[last]);
                    keys_are_ordered(keys[last], keys[at]);
                    keys_are_ordered(keys[a], keys[at]);
                    if comes_first(keys[at], keys[a], ascending) {
                        if ascending {
                            if key_before(keys[a], keys[last]) {
                                keys_chain(keys[at], keys[a], keys[last]);
                            }
                        } else {
                            if key_before(keys[last], keys[a]) {
                                keys_chain(keys[last], keys[a], keys[at]);
                            }
                        }
                    }
                }
            } else {
                assert(out[i] == order[i] && out[j] == order[j]);
            }
        }
        assert forall|i: int| 0 <= i < out.len() implies {
            let a = #[trigger] out[i];
            a == at || order.contains(a)
        } by {
            if i < order.len() {
                assert(out[i] == order[i]);
            }
        }
    }
}

/// One position stands before another: by its key, then as it stood before.
spec fn precedes(keys: Seq<SortKeyView>, ascending: bool, a: int, b: int) -> bool {
    &&& !comes_first(keys[b], keys[a], ascending)
    &&& keys[a] == keys[b] ==> a < b
}

proof fn one_of_two_precedes(keys: Seq<SortKeyView>, ascending: bool, a: int, b: int)
    requires
        one_column(keys),
        0 <= a < keys.len(),
        0 <= b < keys.len(),
        a != b,
    ensures
        precedes(keys, ascending, a, b) <==> !precedes(keys, ascending, b, a),
{
    keys_are_ordered(keys[a], keys[b]);
    keys_are_ordered(keys[b], keys[a]);
}

proof fn precedence_chains(keys: Seq<SortKeyView>, ascending: bool, a: int, b: int, c: int)
    requires
        one_column(keys),
        0 <= a < keys.len(),
        0 <= b < keys.len(),
        0 <= c < keys.len(),
        precedes(keys, ascending, a, b),
        precedes(keys, ascending, b, c),
    ensures
        precedes(keys, ascending, a, c),
{
    keys_are_ordered(keys[a], keys[b]);
    keys_are_ordered(keys[b], keys[c]);
    keys_are_ordered(keys[a], keys[c]);
    keys_are_ordered(keys[c], keys[a]);
    if ascending {
        if key_before(keys[a], keys[b]) && key_before(keys[b], keys[c]) {
            keys_chain(keys[a], keys[b], keys[c]);
        }
    } else {
        if key_before(keys[b], keys[a]) && key_before(keys[c], keys[b]) {
            keys_chain(keys[c], keys[b], keys[a]);
        }
    }
}

/// A list of positions is the order of a range: each of them once, in order.
spec fn orders_range(
    keys: Seq<SortKeyView>,
    ascending: bool,
    order: Seq<int>,
    from: int,
    to: int,
) -> bool {
    &&& in_order(keys, ascending, order)
    &&& order.no_duplicates()
    &&& forall|x: int| #[trigger] order.contains(x) <==> from <= x < to
}

proof fn orders_are_unique(keys: Seq<SortKeyView>, ascending: bool, a: Seq<int>, b: Seq<int>)
    requires
        one_column(keys),
        in_order(keys, ascending, a),
        in_order(keys, ascending, b),
        a.no_duplicates(),
        b.no_duplicates(),
        forall|x: int| #[trigger] a.contains(x) <==> b.contains(x),
        forall|x: int| #[trigger] a.contains(x) ==> 0 <= x < keys.len(),
    ensures
        a == b,
    decreases a.len(),
{
    if a.len() == 0 {
        if b.len() > 0 {
            assert(b.contains(b[0]));
            assert(a.contains(b[0]));
        }
        assert(a =~= b);
    } else {
        let m = a.last();
        assert(a.contains(m));
        let at = b.index_of(m);
        let n = b.last();
        assert(b.contains(n));
        assert(a.contains(n));
        if m != n {
            let other = a.index_of(n);
            assert(precedes(keys, ascending, a[other], a[a.len() - 1]));
            assert(precedes(keys, ascending, b[at], b[b.len() - 1]));
            one_of_two_precedes(keys, ascending, m, n);
        }
        let c = a.drop_last();
        let d = b.drop_last();
        assert(c.push(m) =~= a);
        assert(d.push(m) =~= b);
        assert forall|x: int| #[trigger] c.contains(x) <==> d.contains(x) by {
            shorter_holds_the_rest(a, x);
            shorter_holds_the_rest(b, x);
        }
        assert forall|x: int| #[trigger] c.contains(x) implies 0 <= x < keys.len() by {
            shorter_holds_the_rest(a, x);
        }
        assert(in_order(keys, ascending, c)) by {
            assert forall|i: int, j: int| 0 <= i < j < c.len() implies precedes(
                keys,
                ascending,
                #[trigger] c[i],
                #[trigger] c[j],
            ) by {
                assert(c[i] == a[i] && c[j] == a[j]);
            }
        }
        assert(in_order(keys, ascending, d)) by {
            assert forall|i: int, j: int| 0 <= i < j < d.len() implies precedes(
                keys,
                ascending,
                #[trigger] d[i],
                #[trigger] d[j],
            ) by {
                assert(d[i] == b[i] && d[j] == b[j]);
            }
        }
        orders_are_unique(keys, ascending, c, d);
    }
}

proof fn shorter_holds_the_rest(order: Seq<int>, x: int)
    requires
        order.len() > 0,
        order.no_duplicates(),
    ensures
        order.drop_last().contains(x) <==> order.contains(x) && x != order.last(),
        order.drop_last().no_duplicates(),
{
    let short = order.drop_last();
    if order.contains(x) && x != order.last() {
        let i = order.index_of(x);
        assert(short[i] == x);
    }
    if short.contains(x) {
        let i = short.index_of(x);
        assert(order[i] == x);
    }
}

proof fn longer_holds_one_more(order: Seq<int>, at: int, x: int)
    ensures
        order.push(at).contains(x) <==> order.contains(x) || x == at,
{
    let long = order.push(at);
    if order.contains(x) {
        let i = order.index_of(x);
        assert(long[i] == x);
    }
    assert(long[order.len() as int] == at);
    if long.contains(x) {
        let i = long.index_of(x);
        if i < order.len() {
            assert(order[i] == x);
        }
    }
}

/// Every position of a list precedes every position of another from `n` on.
spec fn before_rest(
    keys: Seq<SortKeyView>,
    ascending: bool,
    order: Seq<int>,
    rest: Seq<int>,
    n: int,
) -> bool {
    forall|i: int, j: int|
        0 <= i < order.len() && n <= j < rest.len() ==> precedes(
            keys,
            ascending,
            #[trigger] order[i],
            #[trigger] rest[j],
        )
}

proof fn grown_order_is_in_order(
    keys: Seq<SortKeyView>,
    ascending: bool,
    order: Seq<int>,
    rest: Seq<int>,
    n: int,
)
    requires
        in_order(keys, ascending, order),
        before_rest(keys, ascending, order, rest, n),
        0 <= n < rest.len(),
    ensures
        in_order(keys, ascending, order.push(rest[n])),
{
    let long = order.push(rest[n]);
    assert forall|i: int, j: int| 0 <= i < j < long.len() implies precedes(
        keys,
        ascending,
        #[trigger] long[i],
        #[trigger] long[j],
    ) by {
        if j == order.len() {
            assert(precedes(keys, ascending, order[i], rest[n]));
        } else {
            assert(precedes(keys, ascending, order[i], order[j]));
        }
    }
}

proof fn the_first_left_precedes_the_rest(
    keys: Seq<SortKeyView>,
    ascending: bool,
    order: Seq<int>,
    taken: Seq<int>,
    n: int,
    other: Seq<int>,
    m: int,
)
    requires
        one_column(keys),
        forall|i: int| 0 <= i < taken.len() ==> 0 <= #[trigger] taken[i] < keys.len(),
        forall|i: int| 0 <= i < other.len() ==> 0 <= #[trigger] other[i] < keys.len(),
        in_order(keys, ascending, taken),
        in_order(keys, ascending, other),
        0 <= n < taken.len(),
        0 <= m <= other.len(),
        m < other.len() ==> precedes(keys, ascending, taken[n], other[m]),
        before_rest(keys, ascending, order, taken, n),
        before_rest(keys, ascending, order, other, m),
    ensures
        before_rest(keys, ascending, order.push(taken[n]), taken, n + 1),
        before_rest(keys, ascending, order.push(taken[n]), other, m),
{
    let long = order.push(taken[n]);
    assert forall|i: int, j: int| 0 <= i < long.len() && n + 1 <= j < taken.len() implies precedes(
        keys,
        ascending,
        #[trigger] long[i],
        #[trigger] taken[j],
    ) by {
        if i == order.len() {
            assert(precedes(keys, ascending, taken[n], taken[j]));
        } else {
            assert(precedes(keys, ascending, order[i], taken[j]));
        }
    }
    assert forall|i: int, j: int| 0 <= i < long.len() && m <= j < other.len() implies precedes(
        keys,
        ascending,
        #[trigger] long[i],
        #[trigger] other[j],
    ) by {
        if i == order.len() {
            if j > m {
                assert(precedes(keys, ascending, other[m], other[j]));
                precedence_chains(keys, ascending, taken[n], other[m], other[j]);
            }
        } else {
            assert(precedes(keys, ascending, order[i], other[j]));
        }
    }
}

/// What stands in two orders up to the given places stands in the merged one,
/// once.
spec fn holds_both(
    order: Seq<int>,
    left: Seq<int>,
    i: int,
    right: Seq<int>,
    j: int,
) -> bool {
    &&& order.no_duplicates()
    &&& forall|x: int| #[trigger]
        order.contains(x) <==> left.take(i).contains(x) || right.take(j).contains(x)
}

proof fn merging_takes_one_more(
    order: Seq<int>,
    taken: Seq<int>,
    n: int,
    other: Seq<int>,
    m: int,
)
    requires
        holds_both(order, taken, n, other, m),
        taken.no_duplicates(),
        0 <= n < taken.len(),
        0 <= m <= other.len(),
        !other.contains(taken[n]),
    ensures
        holds_both(order.push(taken[n]), taken, n + 1, other, m),
{
    let at = taken[n];
    let long = order.push(at);
    assert(taken.take(n + 1) =~= taken.take(n).push(at));
    assert(!order.contains(at)) by {
        if taken.take(n).contains(at) {
            let k = taken.take(n).index_of(at);
            assert(taken[k] == taken[n]);
        }
        if other.take(m).contains(at) {
            let k = other.take(m).index_of(at);
            assert(other[k] == at);
        }
    }
    assert forall|x: int| #[trigger] long.contains(x) <==> taken.take(n + 1).contains(x)
        || other.take(m).contains(x) by {
        longer_holds_one_more(order, at, x);
        longer_holds_one_more(taken.take(n), at, x);
    }
    assert forall|a: int, b: int| 0 <= a < long.len() && 0 <= b < long.len() && a != b implies long[a]
        != long[b] by {
        if a < order.len() {
            assert(order.contains(order[a]));
        }
        if b < order.len() {
            assert(order.contains(order[b]));
        }
    }
}

fn key_first(a: &SortKey, b: &SortKey, ascending: bool) -> (r: bool)
    ensures
        r == comes_first(a@, b@, ascending),
{
    if ascending {
        key_less(a, b)
    } else {
        key_less(b, a)
    }
}

#[verifier::rlimit(40)]
fn merge_orders(
    keys: &Vec<SortKey>,
    ascending: bool,
    left: &Vec<usize>,
    right: &Vec<usize>,
    Ghost(from): Ghost<int>,
    Ghost(mid): Ghost<int>,
    Ghost(to): Ghost<int>,
) -> (r: Vec<usize>)
    requires
        one_column(key_views(keys@)),
        0 <= from <= mid <= to <= keys@.len(),
        orders_range(key_views(keys@), ascending, positions(left@), from, mid),
        orders_range(key_views(keys@), ascending, positions(right@), mid, to),
        left@.len() + right@.len() <= keys@.len(),
    ensures
        orders_range(key_views(keys@), ascending, positions(r@), from, to),
        r@.len() == left@.len() + right@.len(),
{
    let ghost views = key_views(keys@);
    let ghost l = positions(left@);
    let ghost r = positions(right@);
    let mut out: Vec<usize> = Vec::new();
    let mut i: usize = 0;
    let mut j: usize = 0;
    assert(positions(out@) =~= Seq::empty());
    assert forall|x: int| 0 <= x < l.len() implies from <= #[trigger] l[x] < mid by {
        assert(l.contains(l[x]));
    }
    assert forall|x: int| 0 <= x < r.len() implies mid <= #[trigger] r[x] < to by {
        assert(r.contains(r[x]));
    }
    while i < left.len() || j < right.len()
        invariant
            views == key_views(keys@),
            l == positions(left@),
            r == positions(right@),
            one_column(views),
            0 <= from <= mid <= to <= keys@.len(),
            i <= left.len(),
            j <= right.len(),
            out@.len() == i + j,
            left@.len() + right@.len() <= keys@.len(),
            orders_range(views, ascending, l, from, mid),
            orders_range(views, ascending, r, mid, to),
            forall|x: int| 0 <= x < l.len() ==> from <= #[trigger] l[x] < mid,
            forall|x: int| 0 <= x < r.len() ==> mid <= #[trigger] r[x] < to,
            in_order(views, ascending, positions(out@)),
            before_rest(views, ascending, positions(out@), l, i as int),
            before_rest(views, ascending, positions(out@), r, j as int),
            holds_both(positions(out@), l, i as int, r, j as int),
        decreases left.len() - i + right.len() - j,
    {
        let from_left = if i == left.len() {
            false
        } else if j == right.len() {
            true
        } else {
            assert(l[i as int] == left@[i as int] && r[j as int] == right@[j as int]);
            !key_first(&keys[right[j]], &keys[left[i]], ascending)
        };
        let ghost before = positions(out@);
        if from_left {
            proof {
                assert(l[i as int] == left@[i as int]);
                if j < right.len() {
                    assert(r[j as int] == right@[j as int]);
                    assert(precedes(views, ascending, l[i as int], r[j as int]));
                }
                grown_order_is_in_order(views, ascending, before, l, i as int);
                the_first_left_precedes_the_rest(
                    views,
                    ascending,
                    before,
                    l,
                    i as int,
                    r,
                    j as int,
                );
                assert(!r.contains(l[i as int]));
                merging_takes_one_more(before, l, i as int, r, j as int);
            }
            out.push(left[i]);
            assert(positions(out@) =~= before.push(l[i as int]));
            i = i + 1;
        } else {
            proof {
                assert(r[j as int] == right@[j as int]);
                if i < left.len() {
                    assert(l[i as int] == left@[i as int]);
                    one_of_two_precedes(views, ascending, l[i as int], r[j as int]);
                    assert(precedes(views, ascending, r[j as int], l[i as int]));
                }
                grown_order_is_in_order(views, ascending, before, r, j as int);
                the_first_left_precedes_the_rest(
                    views,
                    ascending,
                    before,
                    r,
                    j as int,
                    l,
                    i as int,
                );
                assert(!l.contains(r[j as int]));
                assert(holds_both(before, r, j as int, l, i as int));
                merging_takes_one_more(before, r, j as int, l, i as int);
                assert(holds_both(before.push(r[j as int]), l, i as int, r, j as int + 1));
            }
            out.push(right[j]);
            assert(positions(out@) =~= before.push(r[j as int]));
            j = j + 1;
        }
    }
    assert(l.take(i as int) =~= l);
    assert(r.take(j as int) =~= r);
    assert forall|x: int| #[trigger] positions(out@).contains(x) <==> from <= x < to by {
        assert(l.contains(x) <==> from <= x < mid);
        assert(r.contains(x) <==> mid <= x < to);
    }
    out
}

fn sort_range(keys: &Vec<SortKey>, ascending: bool, from: usize, to: usize) -> (r: Vec<usize>)
    requires
        one_column(key_views(keys@)),
        from <= to <= keys@.len(),
    ensures
        orders_range(key_views(keys@), ascending, positions(r@), from as int, to as int),
        r@.len() == to - from,
    decreases to - from,
{
    let mut out: Vec<usize> = Vec::new();
    if to - from == 0 {
        assert(positions(out@) =~= Seq::empty());
        return out;
    }
    if to - from == 1 {
        out.push(from);
        proof {
            let order = positions(out@);
            assert(order =~= Seq::<int>::empty().push(from as int));
            assert forall|x: int| #[trigger] order.contains(x) <==> from <= x < to by {
                longer_holds_one_more(Seq::empty(), from as int, x);
            }
        }
        return out;
    }
    let mid: usize = from + (to - from) / 2;
    let left = sort_range(keys, ascending, from, mid);
    let right = sort_range(keys, ascending, mid, to);
    merge_orders(
        keys,
        ascending,
        &left,
        &right,
        Ghost(from as int),
        Ghost(mid as int),
        Ghost(to as int),
    )
}

/// The positions of the keys of one column in order.
pub fn sort_positions(keys: &Vec<SortKey>, ascending: bool) -> (r: Vec<usize>)
    requires
        one_column(key_views(keys@)),
    ensures
        positions(r@) == stable_order(key_views(keys@), ascending, keys@.len()),
        r@.len() == keys@.len(),
        forall|i: int| 0 <= i < r@.len() ==> #[trigger] r@[i] < keys@.len(),
{
    let ghost views = key_views(keys@);
    let order = sort_range(keys, ascending, 0, keys.len());
    proof {
        sorted_rows_are_in_order(views, ascending, keys@.len());
        orders_keep_every_row(views, ascending, keys@.len());
        orders_are_unique(
            views,
            ascending,
            positions(order@),
            stable_order(views, ascending, keys@.len()),
        );
        assert forall|i: int| 0 <= i < order@.len() implies #[trigger] order@[i] < keys@.len() by {
            assert(positions(order@)[i] == order@[i]);
            assert(positions(order@).contains(positions(order@)[i]));
        }
    }
    order
}

/// Sorting keeps exactly the rows there were.
pub proof fn sorting_keeps_the_rows<T>(rows: Seq<T>, keys: Seq<SortKeyView>, ascending: bool, row: T)
    ensures
        arranged(rows, keys, ascending).len() == rows.len(),
        arranged(rows, keys, ascending).contains(row) <==> rows.contains(row),
{
    let order = stable_order(keys, ascending, rows.len());
    let out = arranged(rows, keys, ascending);
    orders_keep_every_row(keys, ascending, rows.len());
    if rows.contains(row) {
        let i = rows.index_of(row);
        assert(order.contains(i));
        let j = order.index_of(i);
        assert(out[j] == row);
    }
    if out.contains(row) {
        let j = out.index_of(row);
        assert(order.contains(order[j]));
        assert(rows[order[j]] == row);
    }
}

proof fn placing_adds_a_row<T>(
    rows: Seq<T>,
    keys: Seq<SortKeyView>,
    ascending: bool,
    order: Seq<int>,
    at: int,
)
    ensures
        placed(keys, ascending, order, at).map_values(|i: int| rows[i]).to_multiset()
            == order.map_values(|i: int| rows[i]).to_multiset().insert(rows[at]),
    decreases order.len(),
{
    broadcast use vstd::seq_lib::group_to_multiset_ensures;

    let row = |i: int| rows[i];
    let out = placed(keys, ascending, order, at);
    if order.len() > 0 && comes_first(keys[at], keys[order.last()], ascending) {
        let short = order.drop_last();
        placing_adds_a_row(rows, keys, ascending, short, at);
        let front = placed(keys, ascending, short, at);
        assert(out.map_values(row) =~= front.map_values(row).push(rows[order.last()]));
        assert(order.map_values(row) =~= short.map_values(row).push(rows[order.last()]));
        assert(out.map_values(row).to_multiset() =~= order.map_values(row).to_multiset().insert(
            rows[at],
        ));
    } else {
        assert(out.map_values(row) =~= order.map_values(row).push(rows[at]));
    }
}

proof fn first_rows_are_kept<T>(rows: Seq<T>, keys: Seq<SortKeyView>, ascending: bool, n: nat)
    requires
        n <= rows.len(),
    ensures
        stable_order(keys, ascending, n).map_values(|i: int| rows[i]).to_multiset() == rows.take(
            n as int,
        ).to_multiset(),
    decreases n,
{
    broadcast use vstd::seq_lib::group_to_multiset_ensures;

    let row = |i: int| rows[i];
    if n == 0 {
        assert(stable_order(keys, ascending, n).map_values(row) =~= rows.take(0));
    } else {
        let m = (n - 1) as nat;
        first_rows_are_kept(rows, keys, ascending, m);
        placing_adds_a_row(rows, keys, ascending, stable_order(keys, ascending, m), n - 1);
        assert(rows.take(n as int) =~= rows.take(m as int).push(rows[n - 1]));
    }
}

/// Sorting keeps every row as often as it occurs.
pub proof fn sorting_permutes_the_rows<T>(rows: Seq<T>, keys: Seq<SortKeyView>, ascending: bool)
    ensures
        arranged(rows, keys, ascending).to_multiset() == rows.to_multiset(),
{
    first_rows_are_kept(rows, keys, ascending, rows.len());
    assert(rows.take(rows.len() as int) =~= rows);
}

/// Of two sorted rows the later one does not come before the earlier one.
pub proof fn sorting_orders_the_rows<T>(
    rows: Seq<T>,
    key: spec_fn(T) -> SortKeyView,
    ascending: bool,
    i: int,
    j: int,
)
    requires
        one_column(rows.map_values(key)),
        0 <= i < j < rows.len(),
    ensures
        ({
            let out = arranged(rows, rows.map_values(key), ascending);
            !comes_first(key(out[j]), key(out[i]), ascending)
        }),
{
    let keys = rows.map_values(key);
    let order = stable_order(keys, ascending, rows.len());
    orders_keep_every_row(keys, ascending, rows.len());
    sorted_rows_are_in_order(keys, ascending, rows.len());
    assert(order.contains(order[i]) && order.contains(order[j]));
    assert(keys[order[i]] == key(rows[order[i]]));
    assert(keys[order[j]] == key(rows[order[j]]));
}

/// No two keys have the same id.
pub open spec fn distinct_ids(keys: Seq<SortKeyView>) -> bool {
    forall|i: int, j: int|
        0 <= i < j < keys.len() ==> (#[trigger] keys[i]).id != (#[trigger] keys[j]).id
}

/// Where a position is put into an ascending order.
spec fn place_of(keys: Seq<SortKeyView>, order: Seq<int>, at: int) -> int
    decreases order.len(),
{
    if order.len() > 0 && key_before(keys[at], keys[order.last()]) {
        place_of(keys, order.drop_last(), at)
    } else {
        order.len() as int
    }
}

proof fn places_split_an_order(keys: Seq<SortKeyView>, order: Seq<int>, at: int)
    ensures
        0 <= place_of(keys, order, at) <= order.len(),
        forall|j: int|
            place_of(keys, order, at) <= j < order.len() ==> key_before(
                keys[at],
                keys[#[trigger] order[j]],
            ),
        place_of(keys, order, at) > 0 ==> !key_before(
            keys[at],
            keys[order[place_of(keys, order, at) - 1]],
        ),
    decreases order.len(),
{
    if order.len() > 0 && key_before(keys[at], keys[order.last()]) {
        let short = order.drop_last();
        places_split_an_order(keys, short, at);
        let p = place_of(keys, order, at);
        assert forall|j: int| p <= j < order.len() implies key_before(
            keys[at],
            keys[#[trigger] order[j]],
        ) by {
            if j < short.len() {
                assert(short[j] == order[j]);
            }
        }
        if p > 0 {
            assert(short[p - 1] == order[p - 1]);
        }
    }
}

proof fn placing_commutes_with_reversal(keys: Seq<SortKeyView>, order: Seq<int>, at: int)
    requires
        one_column(keys),
        distinct_ids(keys),
        0 <= at < keys.len(),
        forall|i: int| 0 <= i < order.len() ==> 0 <= #[trigger] order[i] < at,
        in_order(keys, true, order),
    ensures
        placed(keys, false, order.reverse(), at) == placed(keys, true, order, at).reverse(),
{
    let p = place_of(keys, order, at);
    let m = order.len() as int;
    let turned = order.reverse();
    places_split_an_order(keys, order, at);
    placed_at(keys, true, order, at, p);
    assert forall|j: int| 0 <= j < p implies key_before(keys[#[trigger] order[j]], keys[at]) by {
        let last = order[p - 1];
        keys_are_ordered(keys[last], keys[at]);
        assert(keys[last].id != keys[at].id);
        assert(key_before(keys[last], keys[at]));
        if j < p - 1 {
            keys_are_ordered(keys[order[j]], keys[last]);
            keys_chain_or_equal(keys[order[j]], keys[last], keys[at]);
        }
    }
    assert forall|j: int| m - p <= j < turned.len() implies comes_first(
        keys[at],
        keys[#[trigger] turned[j]],
        false,
    ) by {
        assert(turned[j] == order[m - 1 - j]);
    }
    if m - p > 0 {
        assert(turned[m - p - 1] == order[p]);
        keys_are_ordered(keys[at], keys[order[p]]);
    }
    placed_at(keys, false, turned, at, m - p);
    assert(order.insert(p, at).reverse() =~= turned.insert(m - p, at));
}

proof fn keys_chain_or_equal(a: SortKeyView, b: SortKeyView, c: SortKeyView)
    requires
        comparable(a.value, b.value),
        comparable(b.value, c.value),
        key_before(a, b) || a == b,
        key_before(b, c),
    ensures
        key_before(a, c),
{
    if key_before(a, b) {
        keys_chain(a, b, c);
    }
}

proof fn orders_reverse(keys: Seq<SortKeyView>, n: nat)
    requires
        one_column(keys),
        distinct_ids(keys),
        n <= keys.len(),
    ensures
        stable_order(keys, false, n) == stable_order(keys, true, n).reverse(),
    decreases n,
{
    if n == 0 {
        assert(stable_order(keys, false, 0) =~= stable_order(keys, true, 0).reverse());
    } else {
        let m = (n - 1) as nat;
        let order = stable_order(keys, true, m);
        orders_reverse(keys, m);
        sorted_rows_are_in_order(keys, true, m);
        orders_keep_every_row(keys, true, m);
        assert forall|i: int| 0 <= i < order.len() implies 0 <= #[trigger] order[i] < n - 1 by {
            assert(order.contains(order[i]));
        }
        placing_commutes_with_reversal(keys, order, n - 1);
    }
}

/// Rows without a repeated id stand in the one direction exactly in the
/// reverse of the other.
pub proof fn the_other_direction_is_the_reverse<T>(rows: Seq<T>, key: spec_fn(T) -> SortKeyView)
    requires
        one_column(rows.map_values(key)),
        distinct_ids(rows.map_values(key)),
    ensures
        arranged(rows, rows.map_values(key), false) == arranged(
            rows,
            rows.map_values(key),
            true,
        ).reverse(),
{
    let keys = rows.map_values(key);
    orders_reverse(keys, rows.len());
    assert(arranged(rows, keys, false) =~= arranged(rows, keys, true).reverse());
}

/// Two pages that follow each other hold what one page of both sizes holds.
pub proof fn pages_follow_each_other<T>(rows: Seq<T>, offset: int, first: int, second: int)
    requires
        offset >= 0,
        first >= 0,
        second >= 0,
    ensures
        page(rows, offset, first) + page(rows, offset + first, second) == page(
            rows,
            offset,
            first + second,
        ),
{
    assert(page(rows, offset, first) + page(rows, offset + first, second) =~= page(
        rows,
        offset,
        first + second,
    ));
}

/// A page that is large enough holds every row.
pub proof fn a_full_page_holds_every_row<T>(rows: Seq<T>, limit: int)
    requires
        limit >= rows.len(),
    ensures
        page(rows, 0, limit) == rows,
{
    assert(page(rows, 0, limit) =~= rows);
}

/// The rank of a priority: a more urgent one is higher.
pub open spec fn rank_of(priority: GoalPriority) -> int {
    match priority {
        GoalPriority::Low => 0,
        GoalPriority::Medium => 1,
        GoalPriority::High => 2,
    }
}

/// The rank of a priority.
pub fn priority_rank(priority: &GoalPriority) -> (r: u8)
    ensures
        r == rank_of(*priority),
{
    match priority {
        GoalPriority::Low => 0,
        GoalPriority::Medium => 1,
        GoalPriority::High => 2,
    }
}

/// What a goal is ordered by.
pub open spec fn goal_key(goal: GoalIndexProjection, sort: Seq<char>) -> SortKeyView {
    SortKeyView {
        value: if sort == "name"@ {
            SortValueView::Text(goal.name@)
        } else if sort == "status"@ {
            SortValueView::Number(
                crate::model::status_position(goal.status),
            )
        } else if sort == "priority"@ {
            SortValueView::Number(rank_of(goal.priority))
        } else if sort == "reporter"@ {
            SortValueView::MaybeText(
                crate::text::maybe_view(goal.reporter),
            )
        } else if sort == "assignee"@ {
            SortValueView::MaybeText(
                crate::text::maybe_view(goal.assignee),
            )
        } else if sort == "rounds"@ || sort == "round_count"@ {
            SortValueView::Number(goal.round_count as int)
        } else if sort == "node"@ {
            SortValueView::MaybeText(
                crate::text::maybe_view(goal.node_id),
            )
        } else if sort == "created"@ {
            SortValueView::Text(goal.created@)
        } else if sort == "id"@ {
            SortValueView::Text(goal.id@)
        } else {
            SortValueView::Text(goal.updated@)
        },
        id: goal.id@,
    }
}

/// What a feature is ordered by.
pub open spec fn feature_key(
    projection: crate::model::FeatureSummaryView,
    sort: Seq<char>,
) -> SortKeyView {
    let feature = projection.feature;
    SortKeyView {
        value: if sort == "name"@ {
            SortValueView::Text(feature.name@)
        } else if sort == "status"@ {
            SortValueView::Number(
                crate::model::status_position(projection.status),
            )
        } else if sort == "reporter"@ {
            SortValueView::MaybeText(
                crate::text::maybe_view(feature.reporter),
            )
        } else if sort == "assignee"@ {
            SortValueView::MaybeText(
                crate::text::maybe_view(feature.assignee),
            )
        } else if sort == "node"@ {
            SortValueView::MaybeText(
                crate::text::maybe_view(feature.node_id),
            )
        } else if sort == "created"@ {
            SortValueView::Text(feature.created@)
        } else if sort == "id"@ {
            SortValueView::Text(feature.id@)
        } else {
            SortValueView::Text(feature.updated@)
        },
        id: feature.id@,
    }
}

/// What an activity entry is ordered by.
pub open spec fn activity_key(
    projection: ActivitySummaryProjection,
    sort: Seq<char>,
) -> SortKeyView {
    let entry = projection.entry;
    SortKeyView {
        value: if sort == "severity"@ {
            SortValueView::Text(entry.severity@)
        } else if sort == "category"@ {
            SortValueView::Text(entry.category@)
        } else if sort == "actor"@ {
            SortValueView::MaybeText(
                crate::text::maybe_view(entry.actor),
            )
        } else if sort == "goal_id"@ || sort == "goal"@ {
            SortValueView::MaybeText(
                crate::text::maybe_view(entry.goal_id),
            )
        } else if sort == "message"@ {
            SortValueView::Text(entry.message@)
        } else if sort == "id"@ {
            SortValueView::Text(entry.id@)
        } else {
            SortValueView::Text(entry.datetime@)
        },
        id: entry.id@,
    }
}

/// What a change is ordered by. By default the larger order stands first.
pub open spec fn change_key(
    change: ChangeSummaryProjection,
    sort: Seq<char>,
) -> SortKeyView {
    SortKeyView {
        value: if sort == "commit"@ {
            SortValueView::Text(change.commit@)
        } else if sort == "subject"@ {
            SortValueView::Text(change.subject@)
        } else if sort == "branch"@ {
            SortValueView::MaybeText(
                crate::text::maybe_view(change.branch),
            )
        } else if sort == "goal_id"@ || sort == "goal"@ {
            SortValueView::MaybeText(
                crate::text::maybe_view(change.goal_id),
            )
        } else if sort == "status"@ {
            SortValueView::MaybeNumber(
                match change.goal_status {
                    Some(s) => Some(crate::model::status_position(s)),
                    None => None,
                },
            )
        } else if sort == "priority"@ {
            SortValueView::MaybeText(
                crate::text::maybe_view(change.goal_priority),
            )
        } else if sort == "assignee"@ {
            SortValueView::MaybeText(
                crate::text::maybe_view(change.goal_assignee),
            )
        } else {
            SortValueView::Newest(
                change.order as int,
                change.committed_time@,
            )
        },
        id: change.commit@,
    }
}

fn maybe_position(status: &Option<GoalStatus>) -> (r: Option<u64>)
    ensures
        match r {
            Some(n) => status is Some && n == crate::model::status_position(status->0),
            None => status is None,
        },
{
    match status {
        Some(s) => Some(s.position() as u64),
        None => None,
    }
}

/// What a goal is ordered by.
pub fn goal_sort_key(goal: &GoalIndexProjection, sort: &str) -> (r: SortKey)
    ensures
        r@ == goal_key(*goal, sort@),
{
    let value = if text_eq(sort, "name") {
        SortValue::Text(goal.name.clone())
    } else if text_eq(sort, "status") {
        SortValue::Number(goal.status.position() as u64)
    } else if text_eq(sort, "priority") {
        SortValue::Number(priority_rank(&goal.priority) as u64)
    } else if text_eq(sort, "reporter") {
        SortValue::MaybeText(goal.reporter.clone())
    } else if text_eq(sort, "assignee") {
        SortValue::MaybeText(goal.assignee.clone())
    } else if text_eq(sort, "rounds") || text_eq(sort, "round_count") {
        SortValue::Number(goal.round_count as u64)
    } else if text_eq(sort, "node") {
        SortValue::MaybeText(goal.node_id.clone())
    } else if text_eq(sort, "created") {
        SortValue::Text(goal.created.clone())
    } else if text_eq(sort, "id") {
        SortValue::Text(goal.id.clone())
    } else {
        SortValue::Text(goal.updated.clone())
    };
    SortKey { value, id: goal.id.clone() }
}

/// What a feature is ordered by.
pub fn feature_sort_key(projection: &FeatureSummaryProjection, sort: &str) -> (r: SortKey)
    ensures
        r@ == feature_key(projection@, sort@),
{
    let feature = &projection.feature;
    let value = if text_eq(sort, "name") {
        SortValue::Text(feature.name.clone())
    } else if text_eq(sort, "status") {
        SortValue::Number(projection.status.position() as u64)
    } else if text_eq(sort, "reporter") {
        SortValue::MaybeText(feature.reporter.clone())
    } else if text_eq(sort, "assignee") {
        SortValue::MaybeText(feature.assignee.clone())
    } else if text_eq(sort, "node") {
        SortValue::MaybeText(feature.node_id.clone())
    } else if text_eq(sort, "created") {
        SortValue::Text(feature.created.clone())
    } else if text_eq(sort, "id") {
        SortValue::Text(feature.id.clone())
    } else {
        SortValue::Text(feature.updated.clone())
    };
    SortKey { value, id: feature.id.clone() }
}

/// What an activity entry is ordered by.
pub fn activity_sort_key(projection: &ActivitySummaryProjection, sort: &str) -> (r: SortKey)
    ensures
        r@ == activity_key(*projection, sort@),
{
    let entry = &projection.entry;
    let value = if text_eq(sort, "severity") {
        SortValue::Text(entry.severity.clone())
    } else if text_eq(sort, "category") {
        SortValue::Text(entry.category.clone())
    } else if text_eq(sort, "actor") {
        SortValue::MaybeText(entry.actor.clone())
    } else if text_eq(sort, "goal_id") || text_eq(sort, "goal") {
        SortValue::MaybeText(entry.goal_id.clone())
    } else if text_eq(sort, "message") {
        SortValue::Text(entry.message.clone())
    } else if text_eq(sort, "id") {
        SortValue::Text(entry.id.clone())
    } else {
        SortValue::Text(entry.datetime.clone())
    };
    SortKey { value, id: entry.id.clone() }
}

/// What a change is ordered by.
pub fn change_sort_key(change: &ChangeSummaryProjection, sort: &str) -> (r: SortKey)
    ensures
        r@ == change_key(*change, sort@),
{
    let value = if text_eq(sort, "commit") {
        SortValue::Text(change.commit.clone())
    } else if text_eq(sort, "subject") {
        SortValue::Text(change.subject.clone())
    } else if text_eq(sort, "branch") {
        SortValue::MaybeText(change.branch.clone())
    } else if text_eq(sort, "goal_id") || text_eq(sort, "goal") {
        SortValue::MaybeText(change.goal_id.clone())
    } else if text_eq(sort, "status") {
        SortValue::MaybeNumber(maybe_position(&change.goal_status))
    } else if text_eq(sort, "priority") {
        SortValue::MaybeText(change.goal_priority.clone())
    } else if text_eq(sort, "assignee") {
        SortValue::MaybeText(change.goal_assignee.clone())
    } else {
        SortValue::Newest(change.order, change.committed_time.clone())
    };
    SortKey { value, id: change.commit.clone() }
}

} // verus!
