//! Decoding failures.

use vstd::prelude::*;

use crate::reader::IoErrorKind;

verus! {

/// Why a record could not be decoded. Every failure is fatal for the
/// record it occurs in and bubbles up to the archive decode.
#[derive(Debug, Clone, Copy, PartialEq, Eq, Structural)]
pub enum DecodeError {
    /// The byte source failed or ended unexpectedly.
    Io(IoErrorKind),
    /// The literal at the file start did not match.
    InvalidHeader,
    /// The archive version block did not name a known version.
    InvalidVersion,
    /// A negative length where a non-negative one is required, or a
    /// mismatch between a declared and an actual length.
    InvalidLength,
    /// A required typecode did not appear.
    InvalidTypecode,
    /// A chunk with zero length.
    EmptyChunk,
    /// A sub-stream seek before the start of its chunk.
    OutOfBounds,
    /// Arithmetic overflow while computing a position.
    InvalidInput,
    /// A rejected year, month or day combination.
    InvalidDate,
}

impl DecodeError {
    /// Short English phrase naming the failure.
    pub fn message(&self) -> &'static str {
        match self {
            DecodeError::Io(IoErrorKind::UnexpectedEof) => "unexpected end of the byte source",
            DecodeError::Io(IoErrorKind::InvalidData) => "malformed text data",
            DecodeError::Io(IoErrorKind::InvalidInput) => "invalid seek target",
            DecodeError::InvalidHeader => "invalid header",
            DecodeError::InvalidVersion => "invalid version",
            DecodeError::InvalidLength => "invalid length",
            DecodeError::InvalidTypecode => "invalid typecode",
            DecodeError::EmptyChunk => "chunk with null length is not allowed",
            DecodeError::OutOfBounds => "the current stream position is out of bounds",
            DecodeError::InvalidInput => "invalid seek to a negative or overflowing position",
            DecodeError::InvalidDate => "invalid date",
        }
    }
}

} // verus!
