//! The failures that decoding and decomposition report.

use vstd::prelude::*;

verus! {

/// Why the bytes of a character could not be turned into a UCS-2 code.
#[derive(Debug, Clone, Copy, PartialEq, Eq, Hash, Structural)]
pub enum DecodeError {
    /// The input is empty, or the lead byte announces more bytes than follow.
    TruncatedSequence,
    /// The lead byte opens a four-byte form, whose value does not fit in 16 bits.
    UnsupportedCodepoint,
    /// The first byte is no lead byte (a stray continuation byte).
    InvalidEncoding,
}

/// Why a UCS-2 code could not be split into jamo.
#[derive(Debug, Clone, Copy, PartialEq, Eq, Hash, Structural)]
pub enum DecomposeError {
    /// The top bit of the code is clear, so it cannot be a Hangul syllable.
    NotPrecomposedHangul,
}

/// A failure of either step on the way from bytes to jamo.
#[derive(Debug, Clone, Copy, PartialEq, Eq, Hash, Structural)]
pub enum Error {
    /// The bytes did not decode.
    Decode(DecodeError),
    /// The decoded code did not decompose.
    Decompose(DecomposeError),
}

} // verus!
