//! Values the host environment supplies: fresh identifiers and the
//! current time. Both are nondeterministic, so the store operations take
//! them as plain arguments and are verified for every value; these
//! wrappers only produce them.

use vstd::prelude::*;

verus! {

/// Generates a fresh opaque identifier.
///
/// Relies on uuid::Uuid::new_v4 and its Display impl: a random
/// version-4 UUID rendered in the hyphenated form. Uniqueness is only
/// probabilistic, so nothing is promised of the result; the store
/// re-checks freshness itself.
#[verifier::external_body]
pub fn new_id() -> (r: String) {
    uuid::Uuid::new_v4().to_string()
}

/// The current local time, rendered as an RFC 3339 timestamp.
///
/// Relies on chrono::Local::now and DateTime::to_rfc3339. The result
/// depends on the clock, so nothing is promised of it.
#[verifier::external_body]
pub fn now_rfc3339() -> (r: String) {
    chrono::Local::now().to_rfc3339()
}

} // verus!
