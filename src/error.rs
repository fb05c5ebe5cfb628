//! What can go wrong when an identifier is made.
use vstd::prelude::*;

verus! {

/// The error that chrono's RFC 3339 parser reports.
#[verifier::external_type_specification]
#[verifier::external_body]
pub struct ExParseError(chrono::ParseError);

/// Why an identifier could not be made.
#[derive(Clone, Copy, Debug, PartialEq, Eq)]
pub enum TiltflakeError {
    /// The text was not an RFC 3339 timestamp; carries the parser's diagnostic.
    Rfc3339ParseError(chrono::ParseError),
    /// The instant lies before the generator's epoch (or a clock reading lies
    /// before the Unix epoch).
    TimestampBeforeEpoch,
    /// The milliseconds since the epoch do not fit in 41 bits.
    TimestampTooLarge,
}

impl From<chrono::ParseError> for TiltflakeError {
    fn from(e: chrono::ParseError) -> (r: Self) {
        TiltflakeError::Rfc3339ParseError(e)
    }
}

impl vstd::std_specs::convert::FromSpecImpl<chrono::ParseError> for TiltflakeError {
    open spec fn obeys_from_spec() -> bool {
        true
    }

    open spec fn from_spec(e: chrono::ParseError) -> TiltflakeError {
        TiltflakeError::Rfc3339ParseError(e)
    }
}

} // verus!
