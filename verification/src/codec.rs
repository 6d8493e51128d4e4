//! Standard base64, as the `base64` crate's `STANDARD` engine reads and
//! writes it: the alphabet of RFC 4648 with `=` padding, which decoding
//! requires to be canonical.
//!
//! The two conversions are not proved here. Each is a call into that crate,
//! and what it returns is given a name that the contracts of this library
//! speak of.

use crate::text::decimal;
use base64::Engine;
use vstd::prelude::*;

verus! {

/// Why a text is no standard base64.
#[derive(Clone, Copy, Debug, PartialEq, Eq, Structural)]
pub enum DecodeFault {
    /// A byte that cannot stand where it stands: its offset, and the byte.
    InvalidByte(usize, u8),
    /// The count of symbols leaves a last group of one: the count.
    InvalidLength(usize),
    /// The last symbol carries bits that belong to no byte: its offset, and
    /// the symbol.
    InvalidLastSymbol(usize, u8),
    /// The padding is missing, short or in excess.
    InvalidPadding,
}

/// What the `STANDARD` engine decodes `text` to: the bytes, or the fault it
/// reports. The text is read as its UTF-8 bytes.
pub uninterp spec fn standard_decoding(text: Seq<char>) -> Result<Seq<u8>, DecodeFault>;

/// The text that the `STANDARD` engine encodes `bytes` to.
pub uninterp spec fn standard_encoding(bytes: Seq<u8>) -> Seq<char>;

/// `text` is the standard base64 of `bytes`: encoding `bytes` gives `text`,
/// and decoding `text` gives `bytes` back.
pub open spec fn encodes(bytes: Seq<u8>, text: Seq<char>) -> bool {
    &&& text == standard_encoding(bytes)
    &&& standard_decoding(text) == Ok::<Seq<u8>, DecodeFault>(bytes)
}

/// The length of the base64 text for `len` bytes: four symbols for every
/// three bytes begun.
pub open spec fn encoded_len(len: nat) -> nat {
    4 * ((len + 2) / 3)
}

/// Whether the base64 text for `len` bytes has a length that fits in `usize`.
pub fn encoding_fits(len: usize) -> (yes: bool)
    ensures
        yes == (encoded_len(len as nat) <= usize::MAX),
{
    let begun: usize = if len % 3 == 0 {
        0
    } else {
        1
    };
    let groups: usize = len / 3 + begun;
    groups <= usize::MAX / 4
}

/// How the `base64` crate words a fault.
pub open spec fn fault_text(fault: DecodeFault) -> Seq<char> {
    match fault {
        DecodeFault::InvalidByte(offset, byte) => "Invalid symbol "@ + decimal(byte as nat)
            + ", offset "@ + decimal(offset as nat) + "."@,
        DecodeFault::InvalidLength(length) => "Invalid input length: "@ + decimal(length as nat),
        DecodeFault::InvalidLastSymbol(offset, byte) => "Invalid last symbol "@ + decimal(
            byte as nat,
        ) + ", offset "@ + decimal(offset as nat) + "."@,
        DecodeFault::InvalidPadding => "Invalid padding"@,
    }
}

/// Calls `Engine::decode` on `base64::engine::general_purpose::STANDARD`.
///
/// Believed, not proved: the outcome is a function of the text alone, here
/// named `standard_decoding`. A `DecodeError` comes back as the
/// `DecodeFault` of the same variant and fields.
#[verifier::external_body]
pub(crate) fn decode_standard(text: &str) -> (decoded: Result<Vec<u8>, DecodeFault>)
    ensures
        match decoded {
            Ok(bytes) => (standard_decoding(text@) == Ok::<Seq<u8>, DecodeFault>(bytes@)),
            Err(fault) => (standard_decoding(text@) == Err::<Seq<u8>, DecodeFault>(fault)),
        },
{
    match base64::engine::general_purpose::STANDARD.decode(text) {
        Ok(bytes) => Ok(bytes),
        Err(base64::DecodeError::InvalidByte(at, byte)) => Err(DecodeFault::InvalidByte(at, byte)),
        Err(base64::DecodeError::InvalidLength(len)) => Err(DecodeFault::InvalidLength(len)),
        Err(base64::DecodeError::InvalidLastSymbol(at, byte)) => Err(
            DecodeFault::InvalidLastSymbol(at, byte),
        ),
        Err(base64::DecodeError::InvalidPadding) => Err(DecodeFault::InvalidPadding),
    }
}

/// Calls `Engine::encode` on `base64::engine::general_purpose::STANDARD`.
///
/// Believed, not proved: the text is a function of the bytes alone, here
/// named `standard_encoding`, and the same engine decodes it to those bytes
/// again, as the crate's documentation and its round-trip tests show. The
/// call panics where the length of the text would not fit in `usize`; such
/// input is left out.
#[verifier::external_body]
pub(crate) fn encode_standard(bytes: &[u8]) -> (text: String)
    requires
        encoded_len(bytes@.len()) <= usize::MAX,
    ensures
        text@ == standard_encoding(bytes@),
        (standard_decoding(text@) == Ok::<Seq<u8>, DecodeFault>(bytes@)),
{
    base64::engine::general_purpose::STANDARD.encode(bytes)
}

/// Calls `Display` of `base64::DecodeError`, on the error of the same
/// variant and fields as `fault`.
///
/// Believed, not proved: the wording is that of `fault_text`, with the
/// numbers in decimal.
#[verifier::external_body]
pub(crate) fn describe_fault(fault: DecodeFault) -> (text: String)
    ensures
        text@ == fault_text(fault),
{
    let error = match fault {
        DecodeFault::InvalidByte(at, byte) => base64::DecodeError::InvalidByte(at, byte),
        DecodeFault::InvalidLength(len) => base64::DecodeError::InvalidLength(len),
        DecodeFault::InvalidLastSymbol(at, byte) => base64::DecodeError::InvalidLastSymbol(
            at,
            byte,
        ),
        DecodeFault::InvalidPadding => base64::DecodeError::InvalidPadding,
    };
    error.to_string()
}

} // verus!
