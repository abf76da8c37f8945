use vstd::prelude::*;

verus! {

/// Typed failures of the signing core.
///
/// Every fallible operation of this crate reports one of these values;
/// nothing panics and nothing substitutes defaults silently.
#[derive(Debug, Clone, Copy, PartialEq, Eq, Structural)]
pub enum CoreError {
    /// An address field did not hold exactly 20 bytes.
    InvalidAddressEncoding,
    /// A numeric wire field was empty, held a non-digit character, or
    /// exceeded the 128-bit unsigned range.
    InvalidNumericEncoding,
    /// A small-integer wire enumeration held an unmapped value; the raw
    /// value is carried along.
    UnknownEnumValue(i32),
    /// A private key was not a valid secp256k1 scalar.
    InvalidPrivateKey,
    /// A textual private key was not valid hexadecimal, or did not decode
    /// to a valid 32-byte secp256k1 scalar.
    InvalidKeyEncoding,
    /// A canonical payload could not be serialized; this marks an internal
    /// invariant violation and cannot occur for well-formed domain values.
    SerializationFailure,
}

impl CoreError {
    /// A short stable name for the error, for callers that render messages.
    pub fn as_text(&self) -> (r: &'static str)
        ensures
            r@ == self.text_spec(),
    {
        match self {
            CoreError::InvalidAddressEncoding => "invalid address encoding",
            CoreError::InvalidNumericEncoding => "invalid numeric encoding",
            CoreError::UnknownEnumValue(_) => "unknown enum value",
            CoreError::InvalidPrivateKey => "invalid private key",
            CoreError::InvalidKeyEncoding => "invalid key encoding",
            CoreError::SerializationFailure => "serialization failure",
        }
    }

    pub open spec fn text_spec(&self) -> Seq<char> {
        match self {
            CoreError::InvalidAddressEncoding => "invalid address encoding"@,
            CoreError::InvalidNumericEncoding => "invalid numeric encoding"@,
            CoreError::UnknownEnumValue(_) => "unknown enum value"@,
            CoreError::InvalidPrivateKey => "invalid private key"@,
            CoreError::InvalidKeyEncoding => "invalid key encoding"@,
            CoreError::SerializationFailure => "serialization failure"@,
        }
    }
}

} // verus!
