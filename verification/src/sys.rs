//! The engine's few windows onto the outside world: the clock, fresh
//! job ids, and a JSON well-formedness probe.  Each is a thin trusted
//! wrapper; everything computed from their results is verified.

use vstd::prelude::*;

verus! {

/// Relies on std::time::SystemTime::now: the milliseconds since the
/// epoch, or zero when the clock reads before it.  The result depends
/// on the wall clock, so nothing is promised of it.
#[verifier::external_body]
pub fn now_ms() -> u64 {
    std::time::SystemTime::now()
        .duration_since(std::time::UNIX_EPOCH)
        .map(|d| d.as_millis() as u64)
        .unwrap_or(0)
}

/// Relies on uuid::Uuid::new_v4 and its Display form: a random
/// identifier rendered in the hyphenated format, which is always 36
/// characters.  The value is random, so nothing further is promised.
#[verifier::external_body]
pub fn new_job_id() -> (r: String)
    ensures
        r@.len() == 36,
{
    uuid::Uuid::new_v4().to_string()
}

/// Whether a text is one well-formed JSON document, as the JSON parser
/// decides it; a function of the characters alone.
pub uninterp spec fn json_accepts(s: Seq<char>) -> bool;

/// Relies on serde_json::from_str: accepts exactly the well-formed
/// JSON documents.
#[verifier::external_body]
pub fn json_is_valid(s: &str) -> (r: bool)
    ensures
        r == json_accepts(s@),
{
    serde_json::from_str::<serde_json::Value>(s).is_ok()
}

} // verus!
