//! Errors that the fan's logic reports.
use vstd::prelude::*;

verus! {

/// What went wrong in the fan's logic.
#[derive(Debug, Clone, Copy, PartialEq, Eq, Structural)]
pub enum FanError {
    /// A number in a command or in a sensor readout could not be read.
    ParseError,
    /// The temperature sensor reported an error instead of a reading.
    TemperatureError,
    /// A field that should be text is not UTF-8: the well-formed part ends
    /// at `valid_up_to`, and `error_len` bytes there are wrong (`None` when
    /// the bytes end inside a character).
    Utf8Error { valid_up_to: usize, error_len: Option<u8> },
}

/// Why bytes could not be read as a record.
#[derive(Debug, Clone, Copy, PartialEq, Eq, Structural)]
pub enum ParseFailure {
    /// The bytes end before the record does (a separator or a field is
    /// missing).
    Incomplete,
    /// A field is not a number of the expected radix.
    InvalidNumber,
}

} // verus!
