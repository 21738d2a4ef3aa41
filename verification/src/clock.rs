use vstd::prelude::*;

verus! {

/// `chrono::NaiveDateTime`, made known to the verifier as a value that is
/// carried along and never looked into.
#[verifier::external_type_specification]
#[verifier::external_body]
pub struct ExNaiveDateTime(chrono::NaiveDateTime);

/// A moment in time: a calendar date and time of day, always meant in UTC.
///
/// The library only stores and hands on such moments. Two of them are equal
/// in a contract when they are the same date and time.
pub type Timestamp = chrono::NaiveDateTime;

/// Reads the clock with `chrono::Utc::now` and drops the zone marker
/// (`naive_utc`). Nothing is claimed of the moment that comes back. The call
/// stops the program where the system clock stands before 1970.
#[verifier::external_body]
pub(crate) fn utc_now() -> (now: Timestamp) {
    chrono::Utc::now().naive_utc()
}

} // verus!
