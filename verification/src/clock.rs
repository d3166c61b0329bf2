//! The current time, as scan results record it.

use vstd::prelude::*;

verus! {

/// The current UTC time in RFC 3339 form: the system clock
/// (`std::time::SystemTime::now`) converted by chrono's
/// `From<SystemTime> for DateTime<Utc>` and written by `to_rfc3339`.
///
/// The conversion accepts clocks before 1970 as well as after; it fails
/// only for times beyond chrono's range of about 262,000 years, which a
/// system clock does not reach. What is claimed of chrono: the text it
/// writes for a UTC time is a date of at least four year digits, `-MM-DD`,
/// `T`, `HH:MM:SS`, an optional fraction and the offset `+00:00`, so it is
/// at least 25 characters long and ends with `+00:00`. Which time it holds
/// depends on the clock and is left unsaid.
#[verifier::external_body]
pub(crate) fn utc_now_rfc3339() -> (r: String)
    ensures
        r@.len() >= 25,
        r@.subrange(r@.len() - 6, r@.len() as int) == "+00:00"@,
{
    chrono::DateTime::<chrono::Utc>::from(std::time::SystemTime::now()).to_rfc3339()
}

} // verus!
