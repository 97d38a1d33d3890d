//! Text as it crosses the boundary: the bytes of a C string, decoded as
//! UTF-8.

use vstd::prelude::*;
use vstd::string::StringSliceAdditionalSpecFns;
use vstd::utf8::{encode_scalar, encode_utf8, is_scalar, valid_utf8};

verus! {

/// The error of `core::str::from_utf8`. Nothing is read from it.
#[verifier::external_type_specification]
#[verifier::external_body]
pub struct ExUtf8Error(core::str::Utf8Error);

/// `core::str::from_utf8` succeeds exactly on the byte sequences that are
/// valid UTF-8, and the text it then returns is made of the bytes it was
/// given.
pub assume_specification[ core::str::from_utf8 ](bytes: &[u8]) -> (text: Result<
    &str,
    core::str::Utf8Error,
>)
    ensures
        text is Ok <==> valid_utf8(bytes@),
        text matches Ok(s) ==> s.spec_bytes() == bytes@,
;

/// Whether a byte sequence holds a zero byte. Text crosses the boundary as
/// the bytes in front of a terminating zero, so a sequence that holds one
/// cannot be such text.
pub open spec fn holds_nul(bytes: Seq<u8>) -> bool {
    exists|i: int| 0 <= i < bytes.len() && bytes[i] == 0u8
}

/// Whether a byte sequence is text that can cross the boundary: valid UTF-8
/// with no zero byte in it.
pub open spec fn is_text(bytes: Seq<u8>) -> bool {
    valid_utf8(bytes) && !holds_nul(bytes)
}

/// Whether a character sequence holds the NUL character.
pub open spec fn holds_nul_char(text: Seq<char>) -> bool {
    exists|i: int| 0 <= i < text.len() && text[i] == '\0'
}

/// Looks for a zero byte.
pub fn has_nul(bytes: &[u8]) -> (found: bool)
    ensures
        found == holds_nul(bytes@),
{
    let mut i: usize = 0;
    while i < bytes.len()
        invariant
            i <= bytes@.len(),
            forall|j: int| 0 <= j < i ==> bytes@[j] != 0u8,
        decreases bytes@.len() - i,
    {
        if bytes[i] == 0 {
            return true;
        }
        i = i + 1;
    }
    false
}

/// Reads text that came across the boundary. Bytes that are not valid UTF-8,
/// or that hold a zero byte, are no text.
pub fn decode_text(bytes: &[u8]) -> (text: Option<&str>)
    ensures
        text is Some <==> is_text(bytes@),
        text matches Some(s) ==> s.spec_bytes() == bytes@ && !holds_nul(s.spec_bytes()),
{
    if has_nul(bytes) {
        return None;
    }
    match core::str::from_utf8(bytes) {
        Ok(s) => Some(s),
        Err(_) => None,
    }
}

/// The first byte of a scalar's encoding is zero only for the scalar zero,
/// and no later byte of it is zero.
proof fn lemma_scalar_encoding_nul(scalar: u32)
    by (bit_vector)
    requires
        scalar <= 0x10FFFF,
    ensures
        scalar <= 0x7F ==> ((scalar & 0x7F) as u8 == 0u8 <==> scalar == 0),
        (0xC0 | ((scalar >> 6) & 0x1F) as u8) != 0u8,
        (0xE0 | ((scalar >> 12) & 0x0F) as u8) != 0u8,
        (0xF0 | ((scalar >> 18) & 0x7) as u8) != 0u8,
        (0x80 | (scalar & 0x3F) as u8) != 0u8,
        (0x80 | ((scalar >> 6) & 0x3F) as u8) != 0u8,
        (0x80 | ((scalar >> 12) & 0x3F) as u8) != 0u8,
{
}

/// The encoding of one character holds a zero byte exactly when the
/// character is NUL.
proof fn lemma_char_encoding_nul(c: char)
    ensures
        holds_nul(encode_scalar(c as u32)) <==> c == '\0',
        encode_scalar(c as u32).len() > 0,
{
    let scalar = c as u32;
    let bytes = encode_scalar(scalar);
    vstd::utf8::char_is_scalar(c);
    assert(is_scalar(scalar));
    lemma_scalar_encoding_nul(scalar);
    if c == '\0' {
        assert(bytes[0] == 0u8);
    } else {
        assert(scalar != 0) by {
            vstd::utf8::char_u32_cast(c, scalar);
            vstd::utf8::char_u32_cast('\0', 0u32);
        }
        assert forall|i: int| 0 <= i < bytes.len() implies bytes[i] != 0u8 by {}
    }
}

/// The UTF-8 encoding of a text holds a zero byte exactly when the text
/// holds the NUL character.
pub proof fn lemma_encoding_holds_nul(text: Seq<char>)
    ensures
        holds_nul(encode_utf8(text)) <==> holds_nul_char(text),
    decreases text.len(),
{
    if text.len() == 0 {
    } else {
        let head = encode_scalar(text[0] as u32);
        let rest = text.drop_first();
        let tail = encode_utf8(rest);
        let all = encode_utf8(text);
        assert(all == head + tail);
        lemma_char_encoding_nul(text[0]);
        lemma_encoding_holds_nul(rest);
        if holds_nul(all) {
            let i = choose|i: int| 0 <= i < all.len() && all[i] == 0u8;
            if i < head.len() {
                assert(head[i] == 0u8);
                assert(holds_nul(head));
                assert(text[0] == '\0');
            } else {
                assert(tail[i - head.len()] == 0u8);
                assert(holds_nul(tail));
                let j = choose|j: int| 0 <= j < rest.len() && rest[j] == '\0';
                assert(text[j + 1] == '\0');
            }
            assert(holds_nul_char(text));
        }
        if holds_nul_char(text) {
            let j = choose|j: int| 0 <= j < text.len() && text[j] == '\0';
            if j == 0 {
                let i = choose|i: int| 0 <= i < head.len() && head[i] == 0u8;
                assert(all[i] == 0u8);
            } else {
                assert(rest[j - 1] == '\0');
                assert(holds_nul_char(rest));
                let i = choose|i: int| 0 <= i < tail.len() && tail[i] == 0u8;
                assert(all[head.len() + i] == 0u8);
            }
            assert(holds_nul(all));
        }
    }
}

} // verus!
