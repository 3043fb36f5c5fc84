//! What the operations on texts give.
use vstd::prelude::*;

verus! {

/// A text holds nothing but white space.
pub open spec fn only_spaces(text: Seq<char>) -> bool {
    forall|i: int| 0 <= i < text.len() ==> crate::text::white_space(#[trigger] text[i])
}

/// One text stands in another.
pub open spec fn stands_in(part: Seq<char>, text: Seq<char>) -> bool {
    exists|before: Seq<char>, after: Seq<char>| text == #[trigger] (before + part + after)
}

/// The white space is that of Unicode.
pub proof fn white_space_is_that_of_unicode(c: char)
    ensures
        crate::text::white_space(c) == ({
            let n = c as u32;
            n == 9 || n == 10 || n == 11 || n == 12 || n == 13 || n == 32 || n == 0x85 || n == 0xa0
                || n == 0x1680 || 0x2000 <= n <= 0x200a || n == 0x2028 || n == 0x2029 || n == 0x202f
                || n == 0x205f || n == 0x3000
        }),
{
}

proof fn front_is_trimmed(text: Seq<char>) -> (from: int)
    ensures
        0 <= from <= text.len(),
        crate::text::trimmed_start(text) == text.skip(from),
        only_spaces(text.take(from)),
        from < text.len() ==> !crate::text::white_space(text[from]),
    decreases text.len(),
{
    if text.len() > 0 && crate::text::white_space(text.first()) {
        let rest = front_is_trimmed(text.drop_first());
        assert(text.drop_first().skip(rest) =~= text.skip(rest + 1));
        assert forall|i: int| 0 <= i < rest + 1 implies crate::text::white_space(
            #[trigger] text.take(rest + 1)[i],
        ) by {
            if i > 0 {
                assert(text.drop_first().take(rest)[i - 1] == text[i]);
            }
        }
        rest + 1
    } else {
        assert(text.skip(0) =~= text);
        0
    }
}

proof fn back_is_trimmed(text: Seq<char>) -> (to: int)
    ensures
        0 <= to <= text.len(),
        crate::text::trimmed_end(text) == text.take(to),
        only_spaces(text.skip(to)),
        to > 0 ==> !crate::text::white_space(text[to - 1]),
    decreases text.len(),
{
    if text.len() > 0 && crate::text::white_space(text.last()) {
        let to = back_is_trimmed(text.drop_last());
        assert(text.drop_last().take(to) =~= text.take(to));
        assert forall|i: int| 0 <= i < text.len() - to implies crate::text::white_space(
            #[trigger] text.skip(to)[i],
        ) by {
            if i < text.len() - 1 - to {
                assert(text.drop_last().skip(to)[i] == text[to + i]);
            }
        }
        to
    } else {
        assert(text.take(text.len() as int) =~= text);
        text.len() as int
    }
}

/// Trimming takes nothing but white space away, and takes all of it away at
/// both ends.
pub proof fn trimming_takes_the_outer_white_space(text: Seq<char>)
    ensures
        ({
            let kept = crate::text::trimmed(text);
            &&& exists|before: Seq<char>, after: Seq<char>|
                text == #[trigger] (before + kept + after) && only_spaces(before) && only_spaces(
                    after,
                )
            &&& kept.len() > 0 ==> !crate::text::white_space(kept[0]) && !crate::text::white_space(
                kept[kept.len() - 1],
            )
            &&& crate::text::trimmed(kept) == kept
        }),
{
    let from = front_is_trimmed(text);
    let rest = crate::text::trimmed_start(text);
    let to = back_is_trimmed(rest);
    let kept = crate::text::trimmed(text);
    let before = text.take(from);
    let after = rest.skip(to);
    assert(text =~= before + kept + after);
    let again = front_is_trimmed(kept);
    let once = crate::text::trimmed_start(kept);
    if kept.len() > 0 {
        assert(kept[0] == rest[0]);
        assert(rest[0] == text[from]);
        if again > 0 {
            assert(crate::text::white_space(kept.take(again)[0]));
        }
        assert(kept.skip(0) =~= kept);
        let last = back_is_trimmed(kept);
        if last < kept.len() {
            assert(crate::text::white_space(kept.skip(last)[kept.len() - 1 - last]));
        }
        assert(kept.take(kept.len() as int) =~= kept);
    } else {
        assert(once =~= kept);
        let last = back_is_trimmed(once);
        assert(once.take(last) =~= kept);
    }
}

/// A text is blank exactly where it holds nothing but white space.
pub proof fn blank_texts_hold_only_white_space(text: Seq<char>)
    ensures
        crate::text::blank(text) == only_spaces(text),
{
    let from = front_is_trimmed(text);
    let rest = crate::text::trimmed_start(text);
    let to = back_is_trimmed(rest);
    if crate::text::blank(text) {
        assert forall|i: int| 0 <= i < text.len() implies crate::text::white_space(
            #[trigger] text[i],
        ) by {
            if i < from {
                assert(text.take(from)[i] == text[i]);
            } else {
                assert(rest.skip(to)[i - from] == text[i]);
            }
        }
    } else if only_spaces(text) {
        assert(crate::text::white_space(text[from]));
    }
}

/// A part is found exactly where it stands in the text.
pub proof fn parts_are_found_where_they_stand(text: Seq<char>, part: Seq<char>)
    ensures
        crate::text::contains_part(text, part) == stands_in(part, text),
{
    if crate::text::contains_part(text, part) {
        let at = choose|at: int| crate::text::occurs_at(text, part, at);
        assert(text =~= text.take(at) + part + text.skip(at + part.len()));
    }
    if stands_in(part, text) {
        let (before, after) = choose|before: Seq<char>, after: Seq<char>|
            text == #[trigger] (before + part + after);
        assert(text.subrange(before.len() as int, (before.len() + part.len()) as int) =~= part);
        assert(crate::text::occurs_at(text, part, before.len() as int));
    }
}

/// A text begins with another exactly where something can be added to that one
/// to give it, and ends with another exactly where something can be put before.
pub proof fn texts_begin_and_end_with_their_parts(text: Seq<char>, part: Seq<char>)
    ensures
        crate::text::begins_with(text, part) == exists|rest: Seq<char>|
            text == #[trigger] (part + rest),
        crate::text::finishes_with(text, part) == exists|rest: Seq<char>|
            text == #[trigger] (rest + part),
{
    if crate::text::begins_with(text, part) {
        assert(text =~= part + text.skip(part.len() as int));
    }
    if exists|rest: Seq<char>| text == #[trigger] (part + rest) {
        assert(text.subrange(0, part.len() as int) =~= part);
    }
    if crate::text::finishes_with(text, part) {
        assert(text =~= text.take(text.len() - part.len()) + part);
    }
    if exists|rest: Seq<char>| text == #[trigger] (rest + part) {
        assert(text.subrange(text.len() - part.len(), text.len() as int) =~= part);
    }
}

/// The order of texts is decided where they first differ; a text that another
/// one continues stands before it.
pub proof fn texts_are_ordered_where_they_differ(a: Seq<char>, b: Seq<char>)
    ensures
        crate::text::text_before(a, b) == exists|n: int|
            0 <= n <= a.len() && n < b.len() && (#[trigger] a.take(n)) == b.take(n) && (n == a.len()
                || a[n] < b[n]),
    decreases a.len(),
{
    if b.len() > 0 && a.len() > 0 && a.first() == b.first() {
        texts_are_ordered_where_they_differ(a.drop_first(), b.drop_first());
        if crate::text::text_before(a, b) {
            let (c, d) = (a.drop_first(), b.drop_first());
            let n = choose|n: int|
                0 <= n <= c.len() && n < d.len() && (#[trigger] c.take(n)) == d.take(n) && (n
                    == c.len() || c[n] < d[n]);
            assert forall|i: int| 0 <= i < n + 1 implies #[trigger] a[i] == b[i] by {
                if i > 0 {
                    assert(c.take(n)[i - 1] == d.take(n)[i - 1]);
                }
            }
            assert(a.take(n + 1) =~= b.take(n + 1));
        }
        if exists|n: int|
            0 <= n <= a.len() && n < b.len() && (#[trigger] a.take(n)) == b.take(n) && (n == a.len()
                || a[n] < b[n]) {
            let (c, d) = (a.drop_first(), b.drop_first());
            let n = choose|n: int|
                0 <= n <= a.len() && n < b.len() && (#[trigger] a.take(n)) == b.take(n) && (n
                    == a.len() || a[n] < b[n]);
            assert(n > 0);
            assert forall|i: int| 0 <= i < n - 1 implies #[trigger] c[i] == d[i] by {
                assert(a.take(n)[i + 1] == b.take(n)[i + 1]);
            }
            assert(c.take(n - 1) =~= d.take(n - 1));
        }
    } else {
        assert(a.take(0) =~= b.take(0));
        if exists|n: int|
            0 <= n <= a.len() && n < b.len() && (#[trigger] a.take(n)) == b.take(n) && (n == a.len()
                || a[n] < b[n]) {
            let n = choose|n: int|
                0 <= n <= a.len() && n < b.len() && (#[trigger] a.take(n)) == b.take(n) && (n
                    == a.len() || a[n] < b[n]);
            if n > 0 {
                assert(a.take(n)[0] == b.take(n)[0]);
            }
        }
    }
}

/// The number that digits stand for.
pub open spec fn number_in(digits: Seq<char>) -> int
    decreases digits.len(),
{
    if digits.len() == 0 {
        0
    } else {
        number_in(digits.drop_last()) * 10 + (digits.last() as u32 - 48)
    }
}

/// The decimal text of a number is made of digits that stand for it, without a
/// needless zero.
pub proof fn decimal_texts_stand_for_their_number(n: nat)
    ensures
        number_in(crate::text::decimal(n)) == n,
        crate::text::decimal(n).len() > 0,
        n > 0 ==> crate::text::decimal(n)[0] != '0',
        n == 0 ==> crate::text::decimal(n).len() == 1,
        forall|i: int|
            0 <= i < crate::text::decimal(n).len() ==> '0' <= #[trigger] crate::text::decimal(n)[i]
                <= '9',
    decreases n,
{
    if n < 10 {
        assert(crate::text::decimal(n).drop_last() =~= Seq::empty());
        assert(number_in(crate::text::decimal(n).drop_last()) == 0);
    } else {
        decimal_texts_stand_for_their_number(n / 10);
        let shorter = crate::text::decimal(n / 10);
        assert(crate::text::decimal(n).drop_last() =~= shorter);
        assert(crate::text::decimal(n)[0] == shorter[0]);
    }
}

} // verus!
