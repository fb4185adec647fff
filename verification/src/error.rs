//! The errors that the option registry and the socket layer report.

use vstd::prelude::*;

verus! {

/// Why an operation failed.
#[derive(Clone, Copy, Debug, PartialEq, Eq, Structural)]
pub enum Error {
    /// The engine reported failure; `code` is its error number, kept verbatim.
    Transport { code: i32 },
    /// A call that was not to wait found nothing to do; trying again later may
    /// succeed.
    WouldBlock,
    /// The endpoint is no address that can be handed to the engine.
    Address,
    /// The socket has been closed.
    Closed,
    /// A value could not be converted to or from its raw representation.
    Marshal,
}

/// Bytes that were expected to be UTF-8 text and are not. The bytes are kept
/// as they were.
#[derive(Debug, PartialEq, Eq)]
pub struct EncodingError {
    /// The bytes that are no text.
    pub raw_bytes: Vec<u8>,
}

/// The direction in which an option was being moved when it failed.
#[derive(Clone, Copy, Debug, PartialEq, Eq, Structural)]
pub enum Direction {
    /// The option was being read from the socket.
    Read,
    /// The option was being written to the socket.
    Write,
}

/// A failed option access: which option, in which direction, and why.
#[derive(Clone, Copy, Debug, PartialEq, Eq, Structural)]
pub struct OptionError {
    /// The raw identifier of the option.
    pub option: i32,
    /// Whether the option was being read or written.
    pub direction: Direction,
    /// What went wrong.
    pub error: Error,
}

} // verus!
