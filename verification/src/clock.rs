//! The instant that every record is stamped with.
//!
//! Records carry a `chrono::NaiveDateTime`. The ledger never reads a clock: it
//! stamps every record with the same instant, `FIXED_EPOCH_TIME_MS`
//! milliseconds after the UNIX epoch, so that what it produces is the same on
//! every run.

use chrono::NaiveDateTime;
use vstd::prelude::*;

verus! {

/// `chrono::NaiveDateTime`, carried through the ledger as an opaque value.
#[verifier::external_type_specification]
#[verifier::external_body]
pub struct ExNaiveDateTime(NaiveDateTime);

/// Milliseconds after the UNIX epoch of the instant that stamps every record.
pub const FIXED_EPOCH_TIME_MS: i64 = 0;

/// What `chrono::NaiveDateTime::from_timestamp_millis` returns for `millis`.
pub uninterp spec fn date_time_from_millis(millis: i64) -> Option<NaiveDateTime>;

/// Calls `chrono::NaiveDateTime::from_timestamp_millis`.
///
/// Trusted: the result is a function of `millis` alone, named
/// [`date_time_from_millis`], and the UNIX epoch itself (`millis == 0`, the
/// first of January 1970 at midnight) is within the range that a
/// `NaiveDateTime` can hold.
#[verifier::external_body]
#[allow(deprecated)]
pub(crate) fn naive_date_time_from_millis(millis: i64) -> (instant: Option<NaiveDateTime>)
    ensures
        instant == date_time_from_millis(millis),
        millis == 0 ==> instant.is_some(),
{
    NaiveDateTime::from_timestamp_millis(millis)
}

/// The instant that stamps every record, as contracts speak of it.
pub open spec fn spec_fixed_date_time() -> NaiveDateTime {
    date_time_from_millis(FIXED_EPOCH_TIME_MS).unwrap()
}

} // verus!
