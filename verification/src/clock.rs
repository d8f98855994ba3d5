//! Wall-clock readings and RFC 3339 timestamps, through `chrono`.
//!
//! Each wrapper below takes and returns plain values; the `chrono::DateTime`
//! it works with stays inside its body.
use vstd::prelude::*;

use chrono::{DateTime, Utc};

verus! {

/// Whether `chrono::DateTime::parse_from_rfc3339` accepts a text.
pub uninterp spec fn is_rfc3339(s: Seq<char>) -> bool;

/// Whether a text ends in the offset `+00:00`.
pub open spec fn ends_in_utc_offset(s: Seq<char>) -> bool {
    s.len() >= 6 && s.subrange(s.len() - 6, s.len() as int) == "+00:00"@
}

/// `chrono::Utc::now` written by `chrono::DateTime::to_rfc3339`. The time
/// depends on the clock and is not stated; claimed is only that the text ends
/// in the offset `+00:00`, which is how `to_rfc3339` writes the zero offset of
/// `Utc` (it never writes `Z`). The text is not claimed to parse back as
/// RFC 3339: a year past 9999 is written with a sign and five digits, which
/// `parse_from_rfc3339` rejects.
#[verifier::external_body]
pub(crate) fn now_rfc3339() -> (res: String)
    ensures
        ends_in_utc_offset(res@),
{
    Utc::now().to_rfc3339()
}

/// `chrono::DateTime::parse_from_rfc3339`, then the whole seconds from that
/// time to `chrono::Utc::now` (`signed_duration_since`, `num_seconds`).
/// Claimed: a count comes back exactly when the text parses, as named by
/// `is_rfc3339`; the count depends on the clock and is not stated.
#[verifier::external_body]
pub(crate) fn seconds_since(timestamp: &str) -> (res: Option<i64>)
    ensures
        res is Some <==> is_rfc3339(timestamp@),
{
    match DateTime::parse_from_rfc3339(timestamp) {
        Ok(then) => Some(Utc::now().signed_duration_since(then).num_seconds()),
        Err(_) => None,
    }
}

} // verus!
