//! Instants in filters.
use vstd::prelude::*;

verus! {

/// An instant: seconds since the Unix epoch, and the nanoseconds into the
/// second.
#[derive(Debug, Clone, Copy, PartialEq, Eq, Structural)]
pub struct UtcInstant {
    pub secs: i64,
    pub nanos: u32,
}

/// What `chrono` makes of an RFC 3339 date and time: the instant, as
/// seconds since the Unix epoch and nanoseconds into the second, or the
/// words of its refusal.
pub uninterp spec fn rfc3339_instant(text: Seq<char>) -> Result<(i64, u32), Seq<char>>;

/// `chrono::DateTime::parse_from_rfc3339`, with `timestamp` and
/// `timestamp_subsec_nanos` of what it returns, or the text of its error.
#[verifier::external_body]
fn parse_rfc3339(text: &str) -> (r: Result<(i64, u32), String>)
    ensures
        match r {
            Ok(instant) => rfc3339_instant(text@) == Ok::<(i64, u32), Seq<char>>(instant),
            Err(e) => rfc3339_instant(text@) == Err::<(i64, u32), Seq<char>>(e@),
        },
{
    match chrono::DateTime::parse_from_rfc3339(text) {
        Ok(t) => Ok((t.timestamp(), t.timestamp_subsec_nanos())),
        Err(e) => Err(e.to_string()),
    }
}

/// The message for a filter value that is no string.
pub open spec fn not_a_datetime_message() -> Seq<char> {
    "Invalid JSON datetime"@
}

/// The instant that a filter's value stands for, given the value's text
/// where the value is a string: it must be a string, and an RFC 3339 date
/// and time.
pub fn time_to_sea_value(json_text: Option<&str>) -> (r: Result<UtcInstant, String>)
    ensures
        match r {
            Ok(t) => json_text matches Some(text) && rfc3339_instant(text@) == Ok::<
                (i64, u32),
                Seq<char>,
            >((t.secs, t.nanos)),
            Err(e) => match json_text {
                None => e@ == not_a_datetime_message(),
                Some(text) => rfc3339_instant(text@) == Err::<(i64, u32), Seq<char>>(e@),
            },
        },
{
    let text = match json_text {
        Some(t) => t,
        None => { return Err("Invalid JSON datetime".to_owned()); },
    };
    match parse_rfc3339(text) {
        Ok((secs, nanos)) => Ok(UtcInstant { secs, nanos }),
        Err(e) => Err(e),
    }
}

} // verus!
