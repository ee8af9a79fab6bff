//! Hex decoding through the `hex` crate, with its behaviour stated.

use vstd::prelude::*;

verus! {

/// The value of one ASCII hex digit, upper or lower case.
pub open spec fn hex_digit(c: u8) -> Option<u8> {
    if 0x30 <= c <= 0x39 {
        Some((c - 0x30) as u8)
    } else if 0x61 <= c <= 0x66 {
        Some((c - 0x61 + 10) as u8)
    } else if 0x41 <= c <= 0x46 {
        Some((c - 0x41 + 10) as u8)
    } else {
        None
    }
}

/// Decoding of a hex byte string: an even number of hex digits, two per byte,
/// high nibble first.
pub open spec fn hex_decoding(b: Seq<u8>) -> Option<Seq<u8>>
    decreases b.len(),
{
    if b.len() % 2 != 0 {
        None
    } else if b.len() == 0 {
        Some(Seq::empty())
    } else {
        match (hex_digit(b[0]), hex_digit(b[1]), hex_decoding(b.subrange(2, b.len() as int))) {
            (Some(h), Some(l), Some(rest)) => Some(seq![(h * 16 + l) as u8] + rest),
            _ => None,
        }
    }
}

/// The UTF-8 bytes of a text.
pub open spec fn utf8(s: Seq<char>) -> Seq<u8> {
    vstd::utf8::encode_utf8(s)
}

/// The decoding of a text, taken by its UTF-8 bytes.
pub open spec fn hex_text(s: Seq<char>) -> Option<Seq<u8>> {
    hex_decoding(utf8(s))
}

/// A decoding holds half as many bytes as there are digits.
pub proof fn lemma_hex_decoding_len(b: Seq<u8>)
    requires
        hex_decoding(b) is Some,
    ensures
        hex_decoding(b).unwrap().len() * 2 == b.len(),
    decreases b.len(),
{
    if b.len() > 0 {
        lemma_hex_decoding_len(b.subrange(2, b.len() as int));
    }
}

/// `hex::decode` on the UTF-8 bytes of `text`: `Some` with the decoded bytes exactly
/// when the bytes are an even number of ASCII hex digits (either case), else `None`.
#[verifier::external_body]
pub(crate) fn decode_hex(text: &str) -> (res: Option<Vec<u8>>)
    ensures
        res matches Some(v) ==> hex_decoding(utf8(text@)) == Some(v@),
        res is None ==> hex_decoding(utf8(text@)) is None,
{
    hex::decode(text).ok()
}

/// Decodes a hex text; `Some` exactly when `hex_text` is defined.
pub fn decode_hex_text(text: &String) -> (res: Option<Vec<u8>>)
    ensures
        res matches Some(v) ==> hex_text(text@) == Some(v@),
        res is None ==> hex_text(text@) is None,
{
    let s: &str = text.as_str();
    decode_hex(s)
}

} // verus!
