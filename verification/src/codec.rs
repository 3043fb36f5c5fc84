//! JSON text: reading bytes into values and writing values as bytes.
use vstd::prelude::*;

use crate::errors::{RefineError, RefineResult};
use crate::json::{Json, Number};
use crate::text::cat2;
use crate::text_map::TextMap;

verus! {

/// A value of `serde_json`, carried from its parser to its converter.
#[verifier::external_type_specification]
#[verifier::external_body]
pub struct ExValue(serde_json::Value);

/// What a `serde_json` value holds.
pub uninterp spec fn value_contents(value: serde_json::Value) -> crate::json::JsonView;

/// What `serde_json::from_slice` makes of bytes: the value they spell, or the
/// text of its error.
pub uninterp spec fn parsed_bytes(bytes: Seq<u8>) -> Result<crate::json::JsonView, Seq<char>>;

/// The bytes that `serde_json::to_vec_pretty` writes for a value.
pub uninterp spec fn pretty_bytes(value: crate::json::JsonView) -> Seq<u8>;

/// What a value of this library holds as a `serde_json` value. A number in
/// written form is read by `serde_json::from_str`; a value without such
/// numbers holds the same.
pub uninterp spec fn carried(value: crate::json::JsonView) -> crate::json::JsonView;

/// Whole numbers in their canonical form and at most `depth` levels of nesting.
pub open spec fn plain(value: crate::json::JsonView, depth: nat) -> bool
    decreases depth,
{
    match value {
        crate::json::JsonView::Number(crate::json::NumberView::Negative(n)) => n < 0,
        crate::json::JsonView::Number(crate::json::NumberView::Decimal(_)) => false,
        crate::json::JsonView::Array(items) => depth > 0 && forall|i: int|
            0 <= i < items.len() ==> plain(#[trigger] items[i], (depth - 1) as nat),
        crate::json::JsonView::Object(fields) => depth > 0 && forall|k: Seq<char>|
            fields.contains_key(k) ==> plain(#[trigger] fields[k], (depth - 1) as nat),
        _ => true,
    }
}

/// The nesting that `serde_json` reads without refusing it.
pub const READABLE_DEPTH: usize = 127;

/// Calls `serde_json::from_slice` for an untyped value. The result depends on
/// the bytes alone and is known here by the name `parsed_bytes`.
#[verifier::external_body]
fn parse_value(bytes: &[u8]) -> (r: Result<serde_json::Value, String>)
    ensures
        match r {
            Ok(value) => parsed_bytes(bytes@) == Ok::<
                crate::json::JsonView,
                Seq<char>,
            >(value_contents(value)),
            Err(text) => parsed_bytes(bytes@) == Err::<crate::json::JsonView, Seq<char>>(text@),
        },
{
    serde_json::from_slice(bytes).map_err(|error| error.to_string())
}

/// Reads a `serde_json::Value` variant by variant into a value of this
/// library: same shape, same keys, whole numbers as integers and any other
/// number as `serde_json` writes it.
#[verifier::external_body]
fn json_of_value(value: serde_json::Value) -> (r: Json)
    ensures
        r@ == value_contents(value),
{
    match value {
        serde_json::Value::Null => Json::Null,
        serde_json::Value::Bool(b) => Json::Bool(b),
        serde_json::Value::Number(n) => Json::Number(
            n.as_u64().map(Number::Unsigned).or_else(|| n.as_i64().map(Number::Negative))
                .unwrap_or_else(|| Number::Decimal(n.to_string())),
        ),
        serde_json::Value::String(t) => Json::Text(t),
        serde_json::Value::Array(items) => Json::Array(items.into_iter().map(json_of_value).collect()),
        serde_json::Value::Object(map) => {
            let mut fields = TextMap::new();
            map.into_iter().for_each(|(k, v)| fields.insert(k, json_of_value(v)));
            Json::Object(fields)
        },
    }
}

/// Builds the `serde_json::Value` of a value of this library variant by
/// variant. It depends on the value alone and its contents are known here by
/// the name `carried`; where every number is whole and canonical they are
/// those of the value.
#[verifier::external_body]
fn value_of_json(value: &Json) -> (r: serde_json::Value)
    ensures
        value_contents(r) == carried(value@),
        forall|depth: nat| #[trigger]
            plain(value@, depth) ==> value_contents(r) == value@,
{
    match value {
        Json::Null => serde_json::Value::Null,
        Json::Bool(b) => serde_json::Value::Bool(*b),
        Json::Number(Number::Unsigned(n)) => serde_json::Value::from(*n),
        Json::Number(Number::Negative(n)) => serde_json::Value::from(*n),
        Json::Number(Number::Decimal(t)) => serde_json::from_str(t).unwrap_or_default(),
        Json::Text(t) => serde_json::Value::String(t.clone()),
        Json::Array(items) => serde_json::Value::Array(items.iter().map(value_of_json).collect()),
        Json::Object(map) => serde_json::Value::Object(
            map.entries.iter().map(|(k, v)| (k.clone(), value_of_json(v))).collect(),
        ),
    }
}

/// Bytes read back as a value with canonical whole numbers and readable
/// nesting.
pub open spec fn reads_back(bytes: Seq<u8>, value: crate::json::JsonView) -> bool {
    plain(value, READABLE_DEPTH as nat) ==> parsed_bytes(bytes) == Ok::<
        crate::json::JsonView,
        Seq<char>,
    >(value)
}

/// Calls `serde_json::to_vec_pretty`. A value is always written: its keys are
/// strings, and writing to memory does not fail. The bytes depend on the value
/// alone and are known here by the name `pretty_bytes`; bytes written for a
/// value with canonical whole numbers and readable nesting are read back as it.
#[verifier::external_body]
fn write_value(value: &serde_json::Value) -> (r: Result<Vec<u8>, String>)
    ensures
        r is Ok,
        r->Ok_0@ == pretty_bytes(value_contents(*value)),
        reads_back(r->Ok_0@, value_contents(*value)),
{
    serde_json::to_vec_pretty(value).map_err(|error| error.to_string())
}

/// Reads bytes as one JSON value, or says what is wrong with them.
pub fn parse_json(bytes: &[u8]) -> (r: Result<Json, String>)
    ensures
        match r {
            Ok(value) => parsed_bytes(bytes@) == Ok::<crate::json::JsonView, Seq<char>>(value@),
            Err(text) => parsed_bytes(bytes@) == Err::<crate::json::JsonView, Seq<char>>(text@),
        },
{
    match parse_value(bytes) {
        Ok(value) => Ok(json_of_value(value)),
        Err(text) => Err(text),
    }
}

/// Writes a value as indented JSON. What is written for a value with
/// canonical whole numbers reads back as that value.
pub fn write_pretty(value: &Json) -> (r: Result<Vec<u8>, String>)
    ensures
        r matches Ok(bytes) && bytes@ == pretty_bytes(carried(value@)),
        forall|depth: nat| #[trigger]
            plain(value@, depth) ==> carried(value@) == value@,
        r matches Ok(bytes) && reads_back(bytes@, value@),
{
    let converted = value_of_json(value);
    write_value(&converted)
}

/// The refusal for a file whose bytes are not JSON.
pub open spec fn unreadable(what: Seq<char>, text: Seq<char>) -> crate::errors::ErrorView {
    crate::errors::ErrorView::Serialization("failed to parse "@ + what + ": "@ + text)
}

/// What the bytes of a stored record hold.
pub open spec fn record_outcome(what: Seq<char>, bytes: Seq<u8>) -> Result<
    crate::json::JsonView,
    crate::errors::ErrorView,
> {
    match parsed_bytes(bytes) {
        Ok(value) => Ok(value),
        Err(text) => Err(unreadable(what, text)),
    }
}

/// Reads a stored record.
pub fn parse_record(what: &str, bytes: &[u8]) -> (r: RefineResult<Json>)
    ensures
        crate::errors::viewed(r) == record_outcome(what@, bytes@),
{
    match parse_json(bytes) {
        Ok(value) => Ok(value),
        Err(text) => {
            let mut message = cat2("failed to parse ", what);
            message.append(": ");
            message.append(text.as_str());
            Err(RefineError::Serialization(message))
        },
    }
}

} // verus!
