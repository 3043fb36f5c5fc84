//! Text operations over the characters of a string.
use vstd::prelude::*;

verus! {

broadcast use vstd::string::group_string_axioms;

/// The characters that Unicode marks `White_Space`.
pub open spec fn white_space(c: char) -> bool {
    ||| '\u{9}' <= c <= '\u{d}'
    ||| c == '\u{20}'
    ||| c == '\u{85}'
    ||| c == '\u{a0}'
    ||| c == '\u{1680}'
    ||| '\u{2000}' <= c <= '\u{200a}'
    ||| c == '\u{2028}'
    ||| c == '\u{2029}'
    ||| c == '\u{202f}'
    ||| c == '\u{205f}'
    ||| c == '\u{3000}'
}

/// Tells whether `c` is white space.
pub fn is_white_space(c: char) -> (r: bool)
    ensures
        r == white_space(c),
{
    ('\u{9}' <= c && c <= '\u{d}') || c == '\u{20}' || c == '\u{85}' || c == '\u{a0}' || c
        == '\u{1680}' || ('\u{2000}' <= c && c <= '\u{200a}') || c == '\u{2028}' || c == '\u{2029}'
        || c == '\u{202f}' || c == '\u{205f}' || c == '\u{3000}'
}

/// `s` without its leading white space.
pub open spec fn trimmed_start(s: Seq<char>) -> Seq<char>
    decreases s.len(),
{
    if s.len() > 0 && white_space(s.first()) {
        trimmed_start(s.drop_first())
    } else {
        s
    }
}

/// `s` without its trailing white space.
pub open spec fn trimmed_end(s: Seq<char>) -> Seq<char>
    decreases s.len(),
{
    if s.len() > 0 && white_space(s.last()) {
        trimmed_end(s.drop_last())
    } else {
        s
    }
}

/// `s` without white space at either end.
pub open spec fn trimmed(s: Seq<char>) -> Seq<char> {
    trimmed_end(trimmed_start(s))
}

/// A text with nothing but white space.
pub open spec fn blank(s: Seq<char>) -> bool {
    trimmed(s).len() == 0
}

/// Removes white space from both ends of a text.
pub fn trim<'a>(s: &'a str) -> (r: &'a str)
    ensures
        r@ == trimmed(s@),
{
    let n: usize = s.unicode_len();
    let mut from: usize = 0;
    assert(s@.subrange(0, n as int) =~= s@);
    while from < n && is_white_space(s.get_char(from))
        invariant
            from <= n == s@.len(),
            trimmed_start(s@) == trimmed_start(s@.subrange(from as int, n as int)),
        decreases n - from,
    {
        assert(s@.subrange(from as int, n as int).drop_first() =~= s@.subrange(
            from as int + 1,
            n as int,
        ));
        from = from + 1;
    }
    assert(trimmed_start(s@) == s@.subrange(from as int, n as int));
    let mut to: usize = n;
    while to > from && is_white_space(s.get_char(to - 1))
        invariant
            from <= to <= n == s@.len(),
            trimmed(s@) == trimmed_end(s@.subrange(from as int, to as int)),
        decreases to,
    {
        assert(s@.subrange(from as int, to as int).drop_last() =~= s@.subrange(
            from as int,
            to as int - 1,
        ));
        to = to - 1;
    }
    s.substring_char(from, to)
}

/// Tells whether a text is empty once trimmed.
pub fn is_blank(s: &str) -> (r: bool)
    ensures
        r == blank(s@),
{
    trim(s).is_empty()
}

/// Compares two texts character by character.
pub fn text_eq(a: &str, b: &str) -> (r: bool)
    ensures
        r == (a@ == b@),
{
    a.to_owned() == b.to_owned()
}

/// The characters of a text, one by one.
pub fn chars_of(s: &str) -> (r: Vec<char>)
    ensures
        r@ == s@,
{
    let mut out: Vec<char> = Vec::new();
    for c in it: s.chars()
        invariant
            it.seq() == s@,
            out@ == s@.take(it.index() as int),
    {
        assert(s@.take(it.index() as int + 1) =~= s@.take(it.index() as int).push(c));
        out.push(c);
    }
    assert(s@.take(s@.len() as int) =~= s@);
    out
}

/// `part` stands at position `at` of `s`.
pub open spec fn occurs_at(s: Seq<char>, part: Seq<char>, at: int) -> bool {
    0 <= at && at + part.len() <= s.len() && s.subrange(at, at + part.len() as int) == part
}

/// `part` occurs somewhere in `s`.
pub open spec fn contains_part(s: Seq<char>, part: Seq<char>) -> bool {
    exists|at: int| occurs_at(s, part, at)
}

/// `s` begins with `part`.
pub open spec fn begins_with(s: Seq<char>, part: Seq<char>) -> bool {
    occurs_at(s, part, 0)
}

/// `s` ends with `part`.
pub open spec fn finishes_with(s: Seq<char>, part: Seq<char>) -> bool {
    occurs_at(s, part, s.len() - part.len())
}

/// Tells whether the characters `part` stand at position `at` of `s`.
fn matches_at(s: &Vec<char>, part: &Vec<char>, at: usize) -> (r: bool)
    requires
        at + part.len() <= s.len(),
    ensures
        r == occurs_at(s@, part@, at as int),
{
    let mut i: usize = 0;
    while i < part.len()
        invariant
            i <= part.len(),
            at + part.len() <= s.len(),
            forall|j: int| 0 <= j < i ==> s@[at + j] == part@[j],
        decreases part.len() - i,
    {
        if s[at + i] != part[i] {
            assert(s@.subrange(at as int, at + part.len() as int)[i as int] != part@[i as int]);
            return false;
        }
        i = i + 1;
    }
    assert(s@.subrange(at as int, at + part.len() as int) =~= part@);
    true
}

/// Tells whether `part` occurs in `s`.
pub fn contains_text(s: &str, part: &str) -> (r: bool)
    ensures
        r == contains_part(s@, part@),
{
    let whole = chars_of(s);
    let needle = chars_of(part);
    if needle.len() > whole.len() {
        return false;
    }
    let last: usize = whole.len() - needle.len();
    let mut at: usize = 0;
    while at <= last
        invariant
            whole@ == s@,
            needle@ == part@,
            at <= last + 1,
            last + needle.len() == whole.len(),
            forall|j: int| 0 <= j < at ==> !occurs_at(s@, part@, j),
        decreases last + 1 - at,
    {
        if matches_at(&whole, &needle, at) {
            return true;
        }
        if at == last {
            assert(forall|j: int| occurs_at(s@, part@, j) ==> 0 <= j <= last);
            return false;
        }
        at = at + 1;
    }
    false
}

/// Tells whether `s` begins with `part`.
pub fn starts_with_text(s: &str, part: &str) -> (r: bool)
    ensures
        r == begins_with(s@, part@),
{
    let whole = chars_of(s);
    let needle = chars_of(part);
    needle.len() <= whole.len() && matches_at(&whole, &needle, 0)
}

/// Tells whether `s` ends with `part`.
pub fn ends_with_text(s: &str, part: &str) -> (r: bool)
    ensures
        r == finishes_with(s@, part@),
{
    let whole = chars_of(s);
    let needle = chars_of(part);
    needle.len() <= whole.len() && matches_at(&whole, &needle, whole.len() - needle.len())
}

/// What follows `part` at the start of `s`, if `s` begins with it.
pub fn strip_prefix_text<'a>(s: &'a str, part: &str) -> (r: Option<&'a str>)
    ensures
        match r {
            Some(rest) => begins_with(s@, part@) && rest@ == s@.skip(part@.len() as int),
            None => !begins_with(s@, part@),
        },
{
    if starts_with_text(s, part) {
        let n: usize = s.unicode_len();
        let rest = s.substring_char(part.unicode_len(), n);
        assert(rest@ =~= s@.skip(part@.len() as int));
        Some(rest)
    } else {
        None
    }
}

/// Code point order of texts: the order in which keys are kept and listed.
pub open spec fn text_before(a: Seq<char>, b: Seq<char>) -> bool
    decreases a.len(),
{
    if b.len() == 0 {
        false
    } else if a.len() == 0 {
        true
    } else if a.first() != b.first() {
        a.first() < b.first()
    } else {
        text_before(a.drop_first(), b.drop_first())
    }
}

/// The order of texts is strict and total.
pub proof fn text_order_is_total(a: Seq<char>, b: Seq<char>)
    ensures
        !text_before(a, a),
        !(text_before(a, b) && text_before(b, a)),
        a != b ==> text_before(a, b) || text_before(b, a),
    decreases a.len(),
{
    if a.len() > 0 {
        text_order_is_total(a.drop_first(), a.drop_first());
        if b.len() > 0 {
            text_order_is_total(a.drop_first(), b.drop_first());
            if a.first() == b.first() && a.drop_first() == b.drop_first() {
                assert(a =~= seq![a.first()] + a.drop_first());
                assert(b =~= seq![b.first()] + b.drop_first());
            }
        }
    } else if b.len() == 0 {
        assert(a =~= b);
    }
}

/// The order of texts is transitive.
pub proof fn text_order_is_transitive(a: Seq<char>, b: Seq<char>, c: Seq<char>)
    requires
        text_before(a, b),
        text_before(b, c),
    ensures
        text_before(a, c),
    decreases a.len(),
{
    if a.len() > 0 && b.len() > 0 && c.len() > 0 && a.first() == b.first() && b.first()
        == c.first() {
        text_order_is_transitive(a.drop_first(), b.drop_first(), c.drop_first());
    }
}

/// Tells whether `a` stands before `b` in code point order.
pub fn text_less(a: &str, b: &str) -> (r: bool)
    ensures
        r == text_before(a@, b@),
{
    let x = chars_of(a);
    let y = chars_of(b);
    let mut i: usize = 0;
    assert(x@.skip(0) =~= a@);
    assert(y@.skip(0) =~= b@);
    while i < x.len() && i < y.len() && x[i] == y[i]
        invariant
            x@ == a@,
            y@ == b@,
            i <= x.len(),
            i <= y.len(),
            text_before(a@, b@) == text_before(x@.skip(i as int), y@.skip(i as int)),
        decreases x.len() - i,
    {
        assert(x@.skip(i as int).drop_first() =~= x@.skip(i as int + 1));
        assert(y@.skip(i as int).drop_first() =~= y@.skip(i as int + 1));
        i = i + 1;
    }
    if i >= y.len() {
        false
    } else if i >= x.len() {
        true
    } else {
        x[i] < y[i]
    }
}

/// `s` with every occurrence of `part`, taken from left to right, replaced.
pub open spec fn replaced_all(s: Seq<char>, part: Seq<char>, by: Seq<char>) -> Seq<char>
    decreases s.len(),
{
    if part.len() == 0 || s.len() == 0 {
        s
    } else if begins_with(s, part) {
        by + replaced_all(s.skip(part.len() as int), part, by)
    } else {
        seq![s.first()] + replaced_all(s.skip(1), part, by)
    }
}

/// Replaces every occurrence of a part that is not empty.
pub fn replace_text(s: &str, part: &str, by: &str) -> (r: String)
    requires
        part@.len() > 0,
    ensures
        r@ == replaced_all(s@, part@, by@),
{
    let whole = chars_of(s);
    let needle = chars_of(part);
    let mut out = String::new();
    let mut i: usize = 0;
    assert(s@.skip(0) =~= s@);
    assert(out@ + replaced_all(s@.skip(0), part@, by@) =~= replaced_all(s@, part@, by@));
    while i < whole.len()
        invariant
            whole@ == s@,
            needle@ == part@,
            part@.len() > 0,
            i <= whole.len(),
            out@ + replaced_all(s@.skip(i as int), part@, by@) == replaced_all(s@, part@, by@),
        decreases whole.len() - i,
    {
        let ghost rest = s@.skip(i as int);
        let ghost before = out@;
        let here = needle.len() <= whole.len() - i && matches_at(&whole, &needle, i);
        assert(here == begins_with(rest, part@)) by {
            if needle.len() <= whole.len() - i {
                assert(rest.subrange(0, part@.len() as int) =~= s@.subrange(
                    i as int,
                    i + part@.len(),
                ));
            }
        }
        if here {
            out.append(by);
            assert(rest.skip(part@.len() as int) =~= s@.skip(i + part@.len()));
            assert(before + (by@ + replaced_all(s@.skip(i + part@.len()), part@, by@)) =~= out@
                + replaced_all(s@.skip(i + part@.len()), part@, by@));
            i = i + needle.len();
        } else {
            out.append(s.substring_char(i, i + 1));
            assert(rest.skip(1) =~= s@.skip(i + 1));
            assert(s@.subrange(i as int, i + 1) =~= seq![rest.first()]);
            assert(before + (seq![rest.first()] + replaced_all(s@.skip(i + 1), part@, by@)) =~= out@
                + replaced_all(s@.skip(i + 1), part@, by@));
            i = i + 1;
        }
    }
    assert(s@.skip(i as int) =~= Seq::<char>::empty());
    assert(out@ + Seq::<char>::empty() =~= out@);
    out
}

/// The decimal digits of a number.
pub open spec fn decimal(n: nat) -> Seq<char>
    decreases n,
{
    if n < 10 {
        seq![digit(n)]
    } else {
        decimal(n / 10).push(digit(n % 10))
    }
}

/// The character of one decimal digit.
pub open spec fn digit(n: nat) -> char {
    if n == 0 { '0' } else if n == 1 { '1' } else if n == 2 { '2' } else if n == 3 { '3' }
    else if n == 4 { '4' } else if n == 5 { '5' } else if n == 6 { '6' } else if n == 7 { '7' }
    else if n == 8 { '8' } else { '9' }
}

/// The text of one decimal digit.
fn digit_text(n: u128) -> (r: &'static str)
    requires
        n < 10,
    ensures
        r@ == seq![digit(n as nat)],
{
    proof {
        reveal_strlit("0");
        reveal_strlit("1");
        reveal_strlit("2");
        reveal_strlit("3");
        reveal_strlit("4");
        reveal_strlit("5");
        reveal_strlit("6");
        reveal_strlit("7");
        reveal_strlit("8");
        reveal_strlit("9");
    }
    let r = if n == 0 { "0" } else if n == 1 { "1" } else if n == 2 { "2" } else if n == 3 { "3" }
        else if n == 4 { "4" } else if n == 5 { "5" } else if n == 6 { "6" } else if n == 7 { "7" }
        else if n == 8 { "8" } else { "9" };
    assert(r@ =~= seq![digit(n as nat)]);
    r
}

/// Writes a number in decimal.
pub fn decimal_text(n: u128) -> (r: String)
    ensures
        r@ == decimal(n as nat),
    decreases n,
{
    if n < 10 {
        digit_text(n).to_owned()
    } else {
        let mut out = decimal_text(n / 10);
        out.append(digit_text(n % 10));
        assert(out@ =~= decimal((n / 10) as nat).push(digit((n % 10) as nat)));
        out
    }
}

/// Joins texts with a line break between neighbours.
pub open spec fn joined_lines(lines: Seq<Seq<char>>) -> Seq<char>
    decreases lines.len(),
{
    if lines.len() == 0 {
        Seq::empty()
    } else if lines.len() == 1 {
        lines[0]
    } else {
        joined_lines(lines.drop_last()) + "\n"@ + lines.last()
    }
}

/// The views of a list of texts.
pub open spec fn views(texts: Seq<String>) -> Seq<Seq<char>> {
    texts.map_values(|t: String| t@)
}

/// The view of an optional borrowed text.
pub open spec fn borrowed_view(text: Option<&str>) -> Option<Seq<char>> {
    match text {
        Some(t) => Some(t@),
        None => None,
    }
}

/// The view of an optional text.
pub open spec fn maybe_view(text: Option<String>) -> Option<Seq<char>> {
    match text {
        Some(t) => Some(t@),
        None => None,
    }
}

/// Joins texts with a line break between neighbours.
pub fn join_lines(lines: &Vec<String>) -> (r: String)
    ensures
        r@ == joined_lines(views(lines@)),
{
    let mut out = String::new();
    assert(out@ =~= joined_lines(views(lines@.take(0))));
    let mut i: usize = 0;
    while i < lines.len()
        invariant
            i <= lines.len(),
            out@ == joined_lines(views(lines@.take(i as int))),
        decreases lines.len() - i,
    {
        let ghost before = views(lines@.take(i as int));
        let ghost after = views(lines@.take(i as int + 1));
        assert(after.drop_last() =~= before);
        if i > 0 {
            out.append("\n");
        }
        out.append(lines[i].as_str());
        if i == 0 {
            assert(out@ =~= lines@[0]@);
        }
        i = i + 1;
    }
    assert(lines@.take(lines.len() as int) =~= lines@);
    out
}

/// Two texts, one after the other.
pub fn cat2(a: &str, b: &str) -> (r: String)
    ensures
        r@ == a@ + b@,
{
    let mut out = a.to_owned();
    out.append(b);
    out
}

/// Three texts, one after the other.
pub fn cat3(a: &str, b: &str, c: &str) -> (r: String)
    ensures
        r@ == a@ + b@ + c@,
{
    let mut out = cat2(a, b);
    out.append(c);
    out
}

/// Five texts, one after the other.
pub fn cat5(a: &str, b: &str, c: &str, d: &str, e: &str) -> (r: String)
    ensures
        r@ == a@ + b@ + c@ + d@ + e@,
{
    let mut out = cat3(a, b, c);
    out.append(d);
    out.append(e);
    out
}

/// Looks a text up in a list.
pub fn list_contains(list: &Vec<String>, item: &str) -> (r: bool)
    ensures
        r == views(list@).contains(item@),
{
    let mut i: usize = 0;
    while i < list.len()
        invariant
            i <= list.len(),
            forall|j: int| 0 <= j < i ==> list@[j]@ != item@,
        decreases list.len() - i,
    {
        if text_eq(list[i].as_str(), item) {
            assert(views(list@)[i as int] == item@);
            return true;
        }
        i = i + 1;
    }
    assert forall|j: int| 0 <= j < views(list@).len() implies views(list@)[j] != item@ by {
        assert(views(list@)[j] == list@[j]@);
    }
    false
}

/// Whether two optional texts are the same.
pub fn maybe_text_eq(a: &Option<String>, b: &Option<String>) -> (r: bool)
    ensures
        r == (crate::text::maybe_view(*a) == crate::text::maybe_view(*b)),
{
    match (a, b) {
        (Some(x), Some(y)) => text_eq(x.as_str(), y.as_str()),
        (None, None) => true,
        _ => false,
    }
}

/// Whether an optional text is present and equal to `b`.
pub fn is_text(a: &Option<String>, b: &str) -> (r: bool)
    ensures
        r == (crate::text::maybe_view(*a) == Some(b@)),
{
    match a {
        Some(x) => text_eq(x.as_str(), b),
        None => false,
    }
}

/// What the `Debug` form of a text is: the text in double quotes, with
/// special characters escaped.
pub uninterp spec fn debug_form(s: Seq<char>) -> Seq<char>;

/// Writes a text in its `Debug` form, which depends on the text alone; it is
/// known here by the name `debug_form`.
#[verifier::external_body]
pub(crate) fn debug_text(s: &str) -> (r: String)
    ensures
        r@ == debug_form(s@),
{
    format!("{s:?}")
}

/// What `str::to_lowercase` makes of a text: its Unicode lower case.
pub uninterp spec fn lowercased(s: Seq<char>) -> Seq<char>;

/// Calls `str::to_lowercase`, whose result depends on the text alone; it is
/// known here by the name `lowercased`.
#[verifier::external_body]
pub(crate) fn lowercase(s: &str) -> (r: String)
    ensures
        r@ == lowercased(s@),
{
    s.to_lowercase()
}

/// What `str::to_uppercase` makes of a text: its Unicode upper case.
pub uninterp spec fn uppercased(s: Seq<char>) -> Seq<char>;

/// Calls `str::to_uppercase`, whose result depends on the text alone; it is
/// known here by the name `uppercased`.
#[verifier::external_body]
pub(crate) fn uppercase(s: &str) -> (r: String)
    ensures
        r@ == uppercased(s@),
{
    s.to_uppercase()
}

} // verus!
