//! The current time and fresh identifiers.
use vstd::prelude::*;

verus! {

/// Calls `chrono::Utc::now` and `DateTime::to_rfc3339`: the current time in
/// RFC 3339 form. It differs from call to call, so nothing is said of it.
#[verifier::external_body]
pub(crate) fn current_time() -> (r: String) {
    chrono::Utc::now().to_rfc3339()
}

/// Calls `chrono::Utc::now` and `DateTime::format`: the current time to the
/// second. It differs from call to call, so nothing is said of it.
#[verifier::external_body]
pub(crate) fn timestamp() -> (r: String) {
    chrono::Utc::now().format("%Y-%m-%dT%H:%M:%SZ").to_string()
}

/// Calls `uuid::Uuid::new_v4`: a random identifier. It differs from call to
/// call, so nothing is said of it.
#[verifier::external_body]
pub(crate) fn fresh_id() -> (r: String) {
    uuid::Uuid::new_v4().to_string()
}

} // verus!
