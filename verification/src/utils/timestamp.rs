//! Moments in time as text, by way of `chrono`.

use vstd::prelude::*;

verus! {

/// The text that `chrono` writes for the moment `secs` seconds and `nanos`
/// nanoseconds after the start of 1970 in UTC, such as
/// `2022-04-25 14:17:32 UTC`, or `None` where `chrono` has no such moment.
pub uninterp spec fn utc_text(secs: i64, nanos: u32) -> Option<Seq<char>>;

/// Calls `chrono::DateTime::from_timestamp` and writes the moment it gives
/// through its `Display`.
///
/// Trusted: the result is a function of `secs` and `nanos` alone, named
/// [`utc_text`].
#[verifier::external_body]
pub(crate) fn format_utc(secs: i64, nanos: u32) -> (text: Option<String>)
    ensures
        match text {
            Some(text) => utc_text(secs, nanos) == Some(text@),
            None => utc_text(secs, nanos) is None,
        },
{
    chrono::DateTime::from_timestamp(secs, nanos).map(|moment| moment.to_string())
}

} // verus!
