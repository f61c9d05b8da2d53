use vstd::prelude::*;

verus! {

/// What is wrong with hex text, as the hex decoder reports it.
#[derive(Clone, Copy, Debug, PartialEq, Eq, Structural)]
pub enum HexFault {
    /// The byte at `index` (read as `c`) is not a hex digit.
    InvalidHexCharacter { c: char, index: usize },
    /// The text has an odd number of bytes.
    OddLength,
    /// The text does not fit a fixed-size output; decoding into a growable
    /// buffer never reports it.
    InvalidStringLength,
}

/// Why a signing request was refused.
#[derive(Clone, Copy, Debug, PartialEq, Eq, Structural)]
pub enum SignerError {
    /// Hex text of odd length or with a character that is not a hex digit.
    InvalidHexEncoding { fault: HexFault },
    /// Key bytes that are not 32 bytes of a scalar in `1..n`.
    InvalidKeyMaterial,
    /// A digest that is not exactly `expected` bytes long.
    InvalidDigestLength { expected: usize, actual: usize },
    /// The signing primitive itself reported a failure.
    SigningFailed,
}

} // verus!
