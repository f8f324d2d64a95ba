use vstd::prelude::*;
use vstd::string::StringExecFns;

verus! {

/// Errors that can occur when generating or using a snowflake.
#[derive(Debug, Eq, PartialEq)]
#[non_exhaustive]
pub enum Error {
    /// The system clock went backwards.
    ///
    /// New snowflakes may be generated again later, but nothing guarantees when.
    NonMonotonicClock,
    /// The epoch is in the future, or precedes the Unix epoch.
    InvalidEpoch,
    /// Too many snowflakes were generated in this millisecond.
    ///
    /// Another snowflake may be generated in the next millisecond.
    SnowflakeExhaustion,
    /// A timestamp exceeds the limits of the underlying data structure.
    ///
    /// This happens when a layout has too few bits for the current timestamp, or when a timestamp
    /// stored in a snowflake can't be represented as a clock value.
    FatalSnowflakeExhaustion,
    /// An integer is not a valid representation of a snowflake for its layout.
    InvalidSnowflake,
}

/// The human-readable message of each error.
pub open spec fn error_message(e: Error) -> Seq<char> {
    match e {
        Error::NonMonotonicClock => "can't generate a new snowflake - the clock went backwards"@,
        Error::InvalidEpoch => "invalid epoch provided"@,
        Error::SnowflakeExhaustion => "too many snowflakes were generated this millisecond"@,
        Error::FatalSnowflakeExhaustion => "the timestamp can't be represented by the underlying data structure"@,
        Error::InvalidSnowflake => "the integer representation is not a valid snowflake"@,
    }
}

impl Error {
    /// Returns the human-readable message that describes this error.
    pub fn message(&self) -> (r: &'static str)
        ensures
            r@ == error_message(*self),
    {
        match self {
            Error::NonMonotonicClock => "can't generate a new snowflake - the clock went backwards",
            Error::InvalidEpoch => "invalid epoch provided",
            Error::SnowflakeExhaustion => "too many snowflakes were generated this millisecond",
            Error::FatalSnowflakeExhaustion => "the timestamp can't be represented by the underlying data structure",
            Error::InvalidSnowflake => "the integer representation is not a valid snowflake",
        }
    }

    /// Returns the human-readable message that describes this error, as an owned string.
    pub fn to_string(&self) -> (r: String)
        ensures
            r@ == error_message(*self),
    {
        String::from_str(self.message())
    }
}

} // verus!
