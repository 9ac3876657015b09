//! Rendering of UTC instants as text, delegated to the `chrono` crate.
//!
//! Instants are plain Unix epoch seconds ([`Timestamp`]); only the two
//! renderings below come from chrono, each named by an uninterpreted
//! spec function since spelling out a calendar is not worth trusting.

use vstd::prelude::*;

verus! {

use crate::Timestamp;

/// Greatest instant the formatters accept: 9999-12-31 23:59:59 UTC.
/// Instants below this bound lie well inside chrono's representable range
/// (so conversion cannot fail) and keep the year at four digits.
pub const MAX_TIMESTAMP: u64 = 253402300799;

/// The characters of the compact `YYYYMMDD_HHMMSS` rendering of an instant.
pub uninterp spec fn compact_stamp_of(secs: Timestamp) -> Seq<char>;

/// The characters of chrono's plain rendering of an instant,
/// `YYYY-MM-DD HH:MM:SS UTC`.
pub uninterp spec fn utc_display_of(secs: Timestamp) -> Seq<char>;

/// Relies on chrono's `DateTime::from_timestamp` (documented to return `Some`
/// for every in-range number of seconds) and on `format("%Y%m%d_%H%M%S")`:
/// the result depends on the instant alone.
#[verifier::external_body]
pub(crate) fn compact_stamp(secs: Timestamp) -> (r: String)
    requires
        secs <= MAX_TIMESTAMP,
    ensures
        r@ == compact_stamp_of(secs),
{
    let dt = chrono::DateTime::from_timestamp(secs as i64, 0).unwrap();
    dt.format("%Y%m%d_%H%M%S").to_string()
}

/// Relies on chrono's `DateTime::from_timestamp` and on the `Display`
/// rendering of `DateTime<Utc>`: the result depends on the instant alone.
#[verifier::external_body]
pub(crate) fn utc_display(secs: Timestamp) -> (r: String)
    requires
        secs <= MAX_TIMESTAMP,
    ensures
        r@ == utc_display_of(secs),
{
    let dt = chrono::DateTime::from_timestamp(secs as i64, 0).unwrap();
    dt.to_string()
}

} // verus!
