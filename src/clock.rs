//! The wall clock and fresh identifiers.
use vstd::prelude::*;

verus! {

/// Exclusive upper bound on what [`now_timestamp`] can return: chrono's
/// latest representable instant lies in the year 262142, about 8.3e12
/// seconds after the epoch.
pub const CLOCK_LIMIT_SECS: i64 = 10_000_000_000_000;

/// Relies on `chrono::Utc::now().timestamp()`: seconds since the Unix epoch.
/// chrono panics on a system clock before the epoch and only builds instants
/// within its own range, so the reading is bounded on both sides.
#[verifier::external_body]
pub(crate) fn now_timestamp() -> (r: i64)
    ensures
        0 <= r < CLOCK_LIMIT_SECS,
{
    chrono::Utc::now().timestamp()
}

/// Relies on `ulid::Ulid::new().to_string()`: a fresh time-ordered random
/// identifier, rendered as 26 Crockford base32 characters.
#[verifier::external_body]
pub(crate) fn new_id() -> (r: String)
    ensures
        r@.len() == 26,
{
    ulid::Ulid::new().to_string()
}

} // verus!
