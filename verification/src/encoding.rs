//! Standard base64 with padding, as the `base64` crate computes it.
//!
//! The alphabet and the padding rules are not restated here: the text that
//! encodes some bytes, and the bytes that a text decodes to, are named, and the
//! two functions below are trusted to compute exactly what is named.

use vstd::prelude::*;
use vstd::string::StringExecFns;
use base64::engine::general_purpose::STANDARD;
use base64::{DecodeError, Engine};
use crate::decimal::{decimal_nat, push_decimal_nat};

verus! {

/// Why a text is not standard base64.
#[derive(Clone, Copy, Debug, PartialEq, Eq, Structural)]
pub enum Base64Error {
    /// A byte outside the alphabet, or padding in the wrong place: its offset
    /// and the byte itself.
    InvalidByte(usize, u8),
    /// The number of symbols cannot be the length of an encoding.
    InvalidLength(usize),
    /// The last symbol, at the given offset, holds bits that no encoding
    /// leaves set.
    InvalidLastSymbol(usize, u8),
    /// The padding is absent or not canonical.
    InvalidPadding,
}

/// The message that tells why a text is not standard base64.
pub open spec fn base64_message(error: Base64Error) -> Seq<char> {
    match error {
        Base64Error::InvalidByte(offset, byte) => "Invalid symbol "@ + decimal_nat(byte as nat)
            + ", offset "@ + decimal_nat(offset as nat) + "."@,
        Base64Error::InvalidLength(length) => "Invalid input length: "@ + decimal_nat(
            length as nat,
        ),
        Base64Error::InvalidLastSymbol(offset, byte) => "Invalid last symbol "@ + decimal_nat(
            byte as nat,
        ) + ", offset "@ + decimal_nat(offset as nat) + "."@,
        Base64Error::InvalidPadding => "Invalid padding"@,
    }
}

impl Base64Error {
    /// The error in words.
    pub fn message(&self) -> (text: String)
        ensures
            text@ == base64_message(*self),
    {
        match self {
            Base64Error::InvalidByte(offset, byte) => {
                let mut text = String::from_str("Invalid symbol ");
                push_decimal_nat(&mut text, *byte as u64);
                text.append(", offset ");
                push_decimal_nat(&mut text, *offset as u64);
                text.append(".");
                text
            },
            Base64Error::InvalidLength(length) => {
                let mut text = String::from_str("Invalid input length: ");
                push_decimal_nat(&mut text, *length as u64);
                text
            },
            Base64Error::InvalidLastSymbol(offset, byte) => {
                let mut text = String::from_str("Invalid last symbol ");
                push_decimal_nat(&mut text, *byte as u64);
                text.append(", offset ");
                push_decimal_nat(&mut text, *offset as u64);
                text.append(".");
                text
            },
            Base64Error::InvalidPadding => String::from_str("Invalid padding"),
        }
    }
}

/// The standard base64 text, with padding, that encodes `bytes`.
pub uninterp spec fn standard_encoding(bytes: Seq<u8>) -> Seq<char>;

/// What decoding `text` as standard base64 with padding gives: the bytes, or
/// the reason why `text` is no encoding.
pub uninterp spec fn standard_decoding(text: Seq<char>) -> Result<Seq<u8>, Base64Error>;

/// The number of characters that encode `length` bytes: four for every three
/// bytes, the last group padded.
pub open spec fn encoded_length(length: nat) -> nat {
    if length % 3 == 0 {
        length / 3 * 4
    } else {
        length / 3 * 4 + 4
    }
}

/// Calls `Engine::encode` on the `STANDARD` engine. The result is trusted to
/// be the standard encoding of `bytes`. The call panics where the length of
/// the result cannot be represented, so such inputs are left out.
#[verifier::external_body]
pub(crate) fn encode_standard(bytes: &[u8]) -> (text: String)
    requires
        encoded_length(bytes@.len()) <= isize::MAX,
    ensures
        text@ == standard_encoding(bytes@),
{
    STANDARD.encode(bytes)
}

/// Calls `Engine::decode` on the `STANDARD` engine. The result is trusted to
/// be the standard decoding of `text`; the crate's error is carried over
/// variant by variant.
#[verifier::external_body]
pub(crate) fn decode_standard(text: &str) -> (decoded: Result<Vec<u8>, Base64Error>)
    ensures
        match decoded {
            Ok(bytes) => standard_decoding(text@) == Ok::<Seq<u8>, Base64Error>(bytes@),
            Err(error) => standard_decoding(text@) == Err::<Seq<u8>, Base64Error>(error),
        },
{
    match STANDARD.decode(text) {
        Ok(bytes) => Ok(bytes),
        Err(DecodeError::InvalidByte(offset, byte)) => Err(Base64Error::InvalidByte(offset, byte)),
        Err(DecodeError::InvalidLength(length)) => Err(Base64Error::InvalidLength(length)),
        Err(DecodeError::InvalidLastSymbol(offset, byte)) => Err(
            Base64Error::InvalidLastSymbol(offset, byte),
        ),
        Err(DecodeError::InvalidPadding) => Err(Base64Error::InvalidPadding),
    }
}

} // verus!
