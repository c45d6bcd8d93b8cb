//! Wall-clock instants as text.

use chrono::DateTime;
use vstd::prelude::*;

verus! {

/// The text of the instant `unix_seconds` after the Unix epoch, as `chrono`
/// writes its UTC date and time of day with the pattern
/// `%Y-%m-%d %H:%M:%S`; `None` for an instant that `chrono` cannot hold.
pub uninterp spec fn utc_text(unix_seconds: i64) -> Option<Seq<char>>;

/// Makes the instant with `DateTime::from_timestamp` and writes it with
/// `DateTime::format` under the pattern `%Y-%m-%d %H:%M:%S`. Believed of
/// them: the outcome depends on the number of seconds alone. Nothing is
/// claimed of what the text holds.
#[verifier::external_body]
pub(crate) fn render_utc(unix_seconds: i64) -> (r: Option<String>)
    ensures
        utc_text(unix_seconds) == match r {
            Some(text) => Some(text@),
            None => None,
        },
{
    match DateTime::from_timestamp(unix_seconds, 0) {
        Some(instant) => Some(instant.format("%Y-%m-%d %H:%M:%S").to_string()),
        None => None,
    }
}

} // verus!
