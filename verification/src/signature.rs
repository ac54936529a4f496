//! Transaction signatures: 64 bytes, written as base58 text.

use vstd::prelude::*;
use crate::error::EventError;

verus! {

/// Number of bytes in a transaction signature.
pub const SIGNATURE_LEN: usize = 64;

/// Whether `c` is one of the 58 characters of the base58 alphabet: the digits
/// and the Latin letters without `0`, `I`, `O` and `l`.
pub open spec fn is_base58_char(c: char) -> bool {
    ||| '1' <= c <= '9'
    ||| 'A' <= c <= 'H'
    ||| 'J' <= c <= 'N'
    ||| 'P' <= c <= 'Z'
    ||| 'a' <= c <= 'k'
    ||| 'm' <= c <= 'z'
}

/// Whether every character of `text` is in the base58 alphabet.
pub open spec fn is_base58_text(text: Seq<char>) -> bool {
    forall|i: int| 0 <= i < text.len() ==> is_base58_char(#[trigger] text[i])
}

/// The bytes that `text` stands for in base58, `None` where it stands for none.
pub uninterp spec fn base58_decoded(text: Seq<char>) -> Option<Seq<u8>>;

/// Base58 decoding, by `bs58::decode(..).into_vec()` with the default
/// alphabet.
///
/// Trusted: the result is claimed to depend on the text alone, and decoding is
/// claimed to fail exactly on a text that holds a character outside the
/// alphabet. The decoder rejects the first such byte it meets, and its only
/// other failure, an output buffer too small, cannot occur with the vector it
/// sizes itself.
#[verifier::external_body]
fn base58_to_bytes(text: &str) -> (decoded: Option<Vec<u8>>)
    ensures
        decoded is Some <==> is_base58_text(text@),
        match decoded {
            Some(bytes) => base58_decoded(text@) == Some(bytes@),
            None => base58_decoded(text@) is None,
        },
{
    bs58::decode(text).into_vec().ok()
}

/// A transaction signature in binary form.
#[derive(Clone, Copy, Debug, PartialEq, Eq)]
pub struct TxSignature {
    pub bytes: [u8; 64],
}

impl View for TxSignature {
    type V = Seq<u8>;

    open spec fn view(&self) -> Seq<u8> {
        self.bytes@
    }
}

/// The signature that decoded bytes make: the bytes themselves where there are
/// exactly 64 of them, and none otherwise.
pub open spec fn signature_bytes(decoded: Option<Seq<u8>>) -> Option<Seq<u8>> {
    match decoded {
        Some(bytes) => if bytes.len() == SIGNATURE_LEN {
            Some(bytes)
        } else {
            None
        },
        None => None,
    }
}

impl TxSignature {
    /// Makes a signature of the outcome of a base58 decoding: of exactly 64
    /// decoded bytes, and of nothing else.
    pub fn from_decoded(decoded: Option<Vec<u8>>) -> (result: Result<TxSignature, EventError>)
        ensures
            result is Ok <==> (decoded matches Some(bytes) && bytes@.len() == SIGNATURE_LEN),
            match result {
                Ok(signature) => decoded matches Some(bytes) && signature@ == bytes@,
                Err(error) => error == EventError::InvalidSignature,
            },
    {
        match decoded {
            None => Err(EventError::InvalidSignature),
            Some(decoded_bytes) => {
                if decoded_bytes.len() != SIGNATURE_LEN {
                    return Err(EventError::InvalidSignature);
                }
                let mut bytes: [u8; 64] = [0u8; 64];
                let mut index: usize = 0;
                while index < SIGNATURE_LEN
                    invariant
                        index <= SIGNATURE_LEN,
                        decoded_bytes@.len() == SIGNATURE_LEN,
                        forall|j: int| 0 <= j < index ==> bytes@[j] == decoded_bytes@[j],
                    decreases SIGNATURE_LEN - index,
                {
                    bytes[index] = decoded_bytes[index];
                    index += 1;
                }
                Ok(TxSignature { bytes })
            },
        }
    }

    /// Decodes the textual form of a signature.
    ///
    /// Fails exactly when the text holds a character outside the base58
    /// alphabet or stands for a number of bytes other than 64.
    pub fn decode(text: &str) -> (result: Result<TxSignature, EventError>)
        ensures
            result is Err <==> !is_base58_text(text@) || base58_decoded(text@).unwrap().len()
                != SIGNATURE_LEN,
            match result {
                Ok(signature) => base58_decoded(text@) == Some(signature@),
                Err(error) => error == EventError::InvalidSignature,
            },
            signature_bytes(base58_decoded(text@)) == match result {
                Ok(signature) => Some(signature@),
                Err(_) => None,
            },
    {
        TxSignature::from_decoded(base58_to_bytes(text))
    }
}

} // verus!
