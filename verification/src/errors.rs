use vstd::prelude::*;

verus! {

/// Every way a loading, query or boundary operation can fail. All failures
/// are reported as values of this type; no operation of the library panics.
#[derive(Clone, Copy, Debug, PartialEq, Eq, Structural)]
pub enum VoidTimeError {
    /// The interval file could not be read.
    FileReadError,
    /// The content is not the expected JSON shape, a timestamp is malformed,
    /// or a formatting pattern cannot be rendered.
    ParseError,
    /// A file locator has an unsupported scheme or cannot be parsed.
    InvalidLocatorError,
    /// A byte buffer handed across the boundary is not valid UTF-8.
    EncodingError,
    /// A numeric timestamp does not denote a representable instant.
    InvalidTimestampError,
    /// An interval index is at or beyond the length of the store.
    IndexOutOfRange,
    /// The handle was destroyed before this operation was issued.
    UseAfterDestroy,
}

} // verus!
