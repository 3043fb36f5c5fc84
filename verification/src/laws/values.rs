//! What recorded values hold.
use vstd::prelude::*;

verus! {

/// An object holds something under a key.
pub open spec fn has_key(value: crate::json::JsonView, key: Seq<char>) -> bool {
    value is Object && value->Object_0.contains_key(key)
}

/// An object holds this value under a key.
pub open spec fn holds(
    value: crate::json::JsonView,
    key: Seq<char>,
    held: crate::json::JsonView,
) -> bool {
    has_key(value, key) && value->Object_0[key] == held
}

/// An object holds a text under a key.
pub open spec fn has_text(value: crate::json::JsonView, key: Seq<char>) -> bool {
    has_key(value, key) && value->Object_0[key] is Text
}

/// The text that an object holds under a key.
pub open spec fn text_of(value: crate::json::JsonView, key: Seq<char>) -> Seq<char> {
    value->Object_0[key]->Text_0
}

/// An object holds this text under a key.
pub open spec fn says(value: crate::json::JsonView, key: Seq<char>, text: Seq<char>) -> bool {
    holds(value, key, crate::json::JsonView::Text(text))
}

/// An object holds this whole number under a key.
pub open spec fn counts(value: crate::json::JsonView, key: Seq<char>, n: u64) -> bool {
    holds(
        value,
        key,
        crate::json::JsonView::Number(crate::json::NumberView::Unsigned(n)),
    )
}

/// An object holds a whole number under a key.
pub open spec fn has_count(value: crate::json::JsonView, key: Seq<char>) -> bool {
    has_key(value, key) && value->Object_0[key] is Number
        && value->Object_0[key]->Number_0 is Unsigned
}

/// An object holds a list under a key.
pub open spec fn has_list(value: crate::json::JsonView, key: Seq<char>) -> bool {
    has_key(value, key) && value->Object_0[key] is Array
}

/// The list that an object holds under a key.
pub open spec fn list_of(value: crate::json::JsonView, key: Seq<char>) -> Seq<
    crate::json::JsonView,
> {
    value->Object_0[key]->Array_0
}

/// An object holds a text under a key that is more than white space.
pub open spec fn names_something(value: crate::json::JsonView, key: Seq<char>) -> bool {
    has_text(value, key) && !crate::laws::texts::only_spaces(text_of(value, key))
}

/// Two values hold the same under a key.
pub open spec fn agree(
    a: crate::json::JsonView,
    b: crate::json::JsonView,
    key: Seq<char>,
) -> bool {
    has_key(a, key) == has_key(b, key) && (has_key(a, key) ==> a->Object_0[key]
        == b->Object_0[key])
}

/// The revision that a record is at: the one it holds, or none yet.
pub open spec fn is_at_revision(record: crate::json::JsonView, revision: u64) -> bool {
    if has_count(record, "workflow_revision"@) {
        counts(record, "workflow_revision"@, revision)
    } else {
        revision == 0
    }
}

/// A record is at exactly one revision, and it is the one that is read.
pub proof fn records_are_at_one_revision(record: crate::json::JsonView, revision: u64)
    ensures
        (crate::merging::revision_of(record) == revision) == is_at_revision(record, revision),
{
}

/// A text that a record names is read without the white space around it, and
/// one that it does not name is not read.
pub proof fn named_texts_are_read(record: crate::json::JsonView, key: Seq<char>)
    ensures
        names_something(record, key) ==> crate::process_control::ownership::named_text(record, key)
            == Some(crate::text::trimmed(text_of(record, key))),
        !names_something(record, key) ==> crate::process_control::ownership::named_text(record, key)
            is None,
{
    if has_text(record, key) {
        crate::laws::texts::blank_texts_hold_only_white_space(text_of(record, key));
    }
}

} // verus!
