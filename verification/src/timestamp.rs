//! Server timestamps: milliseconds since the Unix epoch, and what `chrono`
//! makes of them.

use vstd::prelude::*;

verus! {

/// The text that `chrono` writes for the UTC date and time this many
/// milliseconds after the Unix epoch, in the form of RFC 3339 with `Z` for the
/// zone; `None` where `chrono` has no date and time for the number.
pub uninterp spec fn utc_timestamp_text(millis: int) -> Option<Seq<char>>;

/// Calls `chrono::DateTime::from_timestamp_millis`, which gives `None` for a
/// number out of its range, and writes the date and time out with
/// `DateTime::to_rfc3339_opts`, fractions of a second as short as they go and
/// `Z` for the zone.
#[verifier::external_body]
fn utc_text(millis: i64) -> (text: Option<String>)
    ensures
        text.deep_view() == utc_timestamp_text(millis as int),
{
    chrono::DateTime::from_timestamp_millis(millis).map(
        |instant| instant.to_rfc3339_opts(chrono::SecondsFormat::AutoSi, true),
    )
}

/// A timestamp is plausible where it is positive and a date and time exists
/// for it.
pub open spec fn plausible_timestamp(millis: i64) -> bool {
    millis > 0 && utc_timestamp_text(millis as int) is Some
}

/// The UTC date and time of a timestamp, as text.
pub fn format_utc_millis(millis: i64) -> (text: Option<String>)
    ensures
        text.deep_view() == utc_timestamp_text(millis as int),
{
    utc_text(millis)
}

/// Whether a server timestamp is plausible.
pub fn timestamp_is_plausible(millis: i64) -> (plausible: bool)
    ensures
        plausible == plausible_timestamp(millis),
{
    millis > 0 && utc_text(millis).is_some()
}

} // verus!
