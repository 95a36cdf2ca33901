//! Text conversion between byte sequences and platform text.
//!
//! Two encodings are supported: UTF-8, specified exactly through the UTF-8
//! theory of `vstd::utf8`, and a legacy multi-byte codepage. To keep the
//! legacy conversion deterministic instead of depending on ambient locale
//! state, the legacy codepage is fixed to Shift_JIS, the default codepage of
//! the host environments this byte-exchange interface serves.

use vstd::prelude::*;
use vstd::utf8::{decode_utf8, encode_utf8, encode_utf8_decode_utf8, encode_utf8_valid_utf8,
    valid_utf8};

verus! {

/// Description of the first invalid byte sequence found while validating
/// bytes as UTF-8.
#[derive(Clone, Copy, Debug, PartialEq, Eq)]
pub struct Utf8Fault {
    /// Length of the longest prefix, ending on a character boundary, that was
    /// validated as UTF-8.
    pub valid_up_to: usize,
    /// Length of the invalid byte sequence starting at `valid_up_to`, or
    /// `None` when the input ended before the current character was complete.
    pub error_len: Option<usize>,
}

/// What a [`Utf8Fault`] reports about the byte sequence it was raised on:
/// the prefix of `valid_up_to` bytes is valid UTF-8, and the fault lies
/// within the input.
pub open spec fn fault_describes(f: Utf8Fault, bytes: Seq<u8>) -> bool {
    &&& f.valid_up_to <= bytes.len()
    &&& valid_utf8(bytes.subrange(0, f.valid_up_to as int))
    &&& match f.error_len {
        Some(n) => 1 <= n <= 3 && f.valid_up_to + n <= bytes.len(),
        None => bytes.len() - f.valid_up_to <= 3,
    }
}

/// Relies on `core::str::from_utf8`: it returns the input bytes as a `&str`
/// exactly when they are valid UTF-8, and otherwise reports the longest valid
/// prefix and the length of the first invalid sequence.
#[verifier::external_body]
pub(crate) fn from_utf8_checked(bytes: &[u8]) -> (r: Result<&str, Utf8Fault>)
    ensures
        match r {
            Ok(s) => valid_utf8(bytes@) && s@ == decode_utf8(bytes@),
            Err(f) => !valid_utf8(bytes@) && fault_describes(f, bytes@),
        },
{
    match core::str::from_utf8(bytes) {
        Ok(s) => Ok(s),
        Err(e) => Err(Utf8Fault { valid_up_to: e.valid_up_to(), error_len: e.error_len() }),
    }
}

/// The legacy codepage's reading of a byte sequence: the decoded characters,
/// or `None` where some bytes have no valid mapping.
pub uninterp spec fn legacy_decoding(bytes: Seq<u8>) -> Option<Seq<char>>;

/// The legacy codepage's rendering of a character sequence: the encoded
/// bytes, or `None` where some character has no mapping in the codepage.
pub uninterp spec fn legacy_encoding(text: Seq<char>) -> Option<Seq<u8>>;

/// Relies on `encoding_rs::Encoding::decode_without_bom_handling_and_without_replacement`
/// on `encoding_rs::SHIFT_JIS`: it decodes a complete byte buffer under the
/// legacy codepage, returning `None` on any malformed sequence instead of
/// substituting replacement characters; the result depends on the bytes
/// alone.
#[verifier::external_body]
pub(crate) fn legacy_decode(bytes: &[u8]) -> (r: Option<String>)
    ensures
        match r {
            Some(s) => legacy_decoding(bytes@) == Some(s@),
            None => legacy_decoding(bytes@) is None,
        },
{
    match encoding_rs::SHIFT_JIS.decode_without_bom_handling_and_without_replacement(bytes) {
        Some(cow) => Some(cow.into_owned()),
        None => None,
    }
}

/// Relies on `encoding_rs::Encoding::encode` on `encoding_rs::SHIFT_JIS`: it
/// encodes complete text into legacy-codepage bytes, flagging unmappable
/// characters instead of silently dropping them; the result depends on the
/// characters alone.
#[verifier::external_body]
pub fn encode_legacy(text: &str) -> (r: Option<Vec<u8>>)
    ensures
        match r {
            Some(b) => legacy_encoding(text@) == Some(b@),
            None => legacy_encoding(text@) is None,
        },
{
    let (cow, _, had_unmappable) = encoding_rs::SHIFT_JIS.encode(text);
    if had_unmappable {
        None
    } else {
        Some(cow.into_owned())
    }
}

/// Law: every character sequence survives a UTF-8 encode followed by a UTF-8
/// decode unchanged, and the encoded bytes are always valid UTF-8. This is
/// the encoding-level half of the UTF-8 round trip through a cloned buffer;
/// the contracts of the buffer operations supply the other half, that the
/// stored bytes come back verbatim.
pub proof fn lemma_utf8_round_trip(text: Seq<char>)
    ensures
        valid_utf8(encode_utf8(text)),
        decode_utf8(encode_utf8(text)) == text,
{
    broadcast use encode_utf8_valid_utf8, encode_utf8_decode_utf8;

}

} // verus!
