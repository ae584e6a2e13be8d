//! The ways in which decoding a field can fail.

use vstd::prelude::*;

verus! {

/// Why a value could not be decoded from the head of a buffer.
#[derive(Debug, Clone, Copy, PartialEq, Eq, Structural)]
pub enum DecodeError {
    /// The buffer ends before the value does.
    InsufficientData,
    /// A variable-length integer runs on past its largest encoding.
    MalformedVarInt,
    /// The bytes of a string are not UTF-8.
    InvalidUtf8,
    /// A boolean byte is neither 0 nor 1.
    InvalidBoolEncoding,
    /// A code of a closed enumeration names none of its members.
    InvalidEnumValue,
}

} // verus!
