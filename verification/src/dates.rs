//! Dates as the list of warnings shows them.

use vstd::prelude::*;
use vstd::string::StringExecFns;

verus! {

/// The UTC calendar date of an RFC 3339 timestamp as day, month and year with
/// slashes between, as chrono parses the one and formats the other with
/// `%d/%m/%Y`; none where chrono does not take the text for such a timestamp.
pub uninterp spec fn rfc3339_utc_date(ts: Seq<char>) -> Option<Seq<char>>;

/// Calls chrono's `DateTime::parse_from_rfc3339`, and on what it parsed
/// `naive_utc`, `date` and `format` with `%d/%m/%Y`.
///
/// Trusted: the result is a function of the text alone.
#[verifier::external_body]
pub(crate) fn utc_date_of(ts: &str) -> (date: Option<String>)
    ensures
        match date {
            Some(text) => rfc3339_utc_date(ts@) == Some(text@),
            None => rfc3339_utc_date(ts@) is None,
        },
{
    match chrono::DateTime::parse_from_rfc3339(ts) {
        Ok(dt) => Some(dt.naive_utc().date().format("%d/%m/%Y").to_string()),
        Err(_) => None,
    }
}

/// What is shown for a date that was or was not made out.
pub open spec fn shown_date(date: Option<Seq<char>>) -> Seq<char> {
    match date {
        Some(text) => text,
        None => "Invalid date"@,
    }
}

/// Shows the date that was made out, or says that there is none.
pub fn date_or_invalid(date: Option<String>) -> (text: String)
    ensures
        text@ == shown_date(
            match date {
                Some(d) => Some(d@),
                None => None,
            },
        ),
{
    match date {
        Some(text) => text,
        None => String::from_str("Invalid date"),
    }
}

/// The UTC date of an RFC 3339 timestamp as `dd/mm/yyyy`, or "Invalid date"
/// where the text is no such timestamp.
pub fn format_timestamp_ddmmyyyy(ts: &str) -> (text: String)
    ensures
        text@ == shown_date(rfc3339_utc_date(ts@)),
{
    date_or_invalid(utc_date_of(ts))
}

} // verus!
