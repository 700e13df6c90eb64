//! Errors shared by every save-media operation.

use vstd::prelude::*;

verus! {

/// Failure of a save-media operation. Every operation is all-or-nothing from
/// the caller's side: an error means the request did not happen as asked.
#[derive(Debug, Clone, Copy, PartialEq, Eq, Structural)]
pub enum Error {
    /// The byte range reaches past the end of the medium.
    OutOfBounds,
    /// Another operation holds the medium.
    Busy,
    /// The hardware did not report completion within its poll bound.
    Timeout,
    /// Read-back after programming did not match the requested bytes.
    VerifyFailed,
    /// No media type was ever selected.
    Unconfigured,
}

} // verus!
