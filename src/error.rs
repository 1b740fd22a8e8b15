use vstd::prelude::*;

verus! {

/// Why a response could not be turned into a query result.
#[derive(Clone, Copy, Debug, PartialEq, Eq, Structural)]
pub enum ParseError {
    /// The body is not a JSON document.
    InvalidJson,
    /// The response has no `days` array.
    MissingDays,
    /// A member of `stations` is not an object.
    InvalidStations,
    /// A required calendar date is missing or unreadable.
    InvalidDate,
    /// A required time of day is missing or unreadable.
    InvalidTime,
    /// A list member is neither absent nor an array of the expected elements.
    InvalidList,
}

/// Why a fetch failed.
#[derive(Debug, PartialEq, Eq)]
pub enum WeatherError {
    /// No API key is set; nothing was sent.
    Configuration,
    /// The transport failed; the text says how.
    Transport(String),
    /// The response could not be read.
    Parse(ParseError),
}

} // verus!
