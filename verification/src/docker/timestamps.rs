//! Reading the timestamps that the container runtime prints.

use vstd::prelude::*;

verus! {

/// The parse error of the chrono crate.
#[verifier::external_type_specification]
#[verifier::external_body]
pub struct ExChronoParseError(chrono::format::ParseError);

/// The instant that an RFC 3339 timestamp names: the whole seconds since the
/// start of 1970 in UTC, and the nanoseconds behind them; none where the
/// text is no such timestamp.
pub uninterp spec fn rfc3339_instant(text: Seq<char>) -> Option<(int, int)>;

/// `DateTime::parse_from_rfc3339` of the chrono crate, with the instant
/// given as `timestamp` and `timestamp_subsec_nanos` give it.
#[verifier::external_body]
pub(crate) fn parse_rfc3339(text: &str) -> (r: Result<(i64, u32), chrono::format::ParseError>)
    ensures
        match r {
            Ok(instant) => rfc3339_instant(text@) == Some((instant.0 as int, instant.1 as int)),
            Err(_) => rfc3339_instant(text@) is None,
        },
{
    let parsed = chrono::DateTime::parse_from_rfc3339(text)?;
    Ok((parsed.timestamp(), parsed.timestamp_subsec_nanos()))
}

/// The text of a chrono parse error, as its `Display` writes it.
#[verifier::external_body]
pub(crate) fn parse_error_text(e: &chrono::format::ParseError) -> (r: String) {
    e.to_string()
}

} // verus!
