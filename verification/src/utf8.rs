//! Decoding the first character of a UTF-8 byte string into its UCS-2 code.
//!
//! Only the forms of one, two and three bytes are decoded: a character of
//! four bytes has no 16-bit code. Continuation bytes are not validated;
//! their two top bits are dropped whatever they are.

use vstd::prelude::*;
use vstd::utf8::{encode_scalar, encode_utf8};
use crate::error::DecodeError;

verus! {

/// `byte` stands alone: `0xxxxxxx`.
pub open spec fn is_single(byte: u8) -> bool {
    byte < 0x80
}

/// `byte` opens a form of two bytes: `110xxxxx`.
pub open spec fn is_lead_of_two(byte: u8) -> bool {
    0xc0 <= byte < 0xe0
}

/// `byte` opens a form of three bytes: `1110xxxx`.
pub open spec fn is_lead_of_three(byte: u8) -> bool {
    0xe0 <= byte < 0xf0
}

/// `byte` opens a form of four bytes or more: `1111xxxx`.
pub open spec fn is_lead_of_four(byte: u8) -> bool {
    0xf0 <= byte
}

/// The code held in a form of two bytes: the low five bits of the first
/// byte, then the low six bits of the second.
pub open spec fn code_of_two(b0: u8, b1: u8) -> int {
    (b0 % 0x20) * 0x40 + b1 % 0x40
}

/// The code held in a form of three bytes: the low four bits of the first
/// byte, then the low six bits of each of the other two.
pub open spec fn code_of_three(b0: u8, b1: u8, b2: u8) -> int {
    (b0 % 0x10) * 0x1000 + (b1 % 0x40) * 0x40 + b2 % 0x40
}

/// What decoding returns for `bytes`: the code of the character that the
/// bytes begin with, or the reason why there is none.
pub open spec fn decode(bytes: Seq<u8>) -> Result<u16, DecodeError> {
    if bytes.len() == 0 {
        Err(DecodeError::TruncatedSequence)
    } else if is_single(bytes[0]) {
        Ok(bytes[0] as u16)
    } else if is_lead_of_two(bytes[0]) {
        if bytes.len() < 2 {
            Err(DecodeError::TruncatedSequence)
        } else {
            Ok(code_of_two(bytes[0], bytes[1]) as u16)
        }
    } else if is_lead_of_three(bytes[0]) {
        if bytes.len() < 3 {
            Err(DecodeError::TruncatedSequence)
        } else {
            Ok(code_of_three(bytes[0], bytes[1], bytes[2]) as u16)
        }
    } else if is_lead_of_four(bytes[0]) {
        Err(DecodeError::UnsupportedCodepoint)
    } else {
        Err(DecodeError::InvalidEncoding)
    }
}

/// The bit patterns of a first byte, as ranges of its value.
pub proof fn lemma_lead_patterns(b: u8)
    ensures
        b & 0x80 == 0x00 <==> is_single(b),
        b & 0xe0 == 0xc0 <==> is_lead_of_two(b),
        b & 0xf0 == 0xe0 <==> is_lead_of_three(b),
        b & 0xf0 == 0xf0 <==> is_lead_of_four(b),
{
    assert(b & 0x80 == 0x00 <==> b < 0x80) by (bit_vector);
    assert(b & 0xe0 == 0xc0 <==> 0xc0 <= b < 0xe0) by (bit_vector);
    assert(b & 0xf0 == 0xe0 <==> 0xe0 <= b < 0xf0) by (bit_vector);
    assert(b & 0xf0 == 0xf0 <==> 0xf0 <= b) by (bit_vector);
}

/// The code of a form of two bytes is what masking, shifting and joining
/// its bytes gives: `(b0 & 0x1F) << 6 | (b1 & 0x3F)`. It is below 0x800.
pub proof fn lemma_join_two(b0: u8, b1: u8)
    ensures
        (((b0 & 0x1f) as u16) << 6 | ((b1 & 0x3f) as u16)) == code_of_two(b0, b1),
        0 <= code_of_two(b0, b1) < 0x800,
{
    assert((((b0 & 0x1f) as u16) << 6 | ((b1 & 0x3f) as u16)) == (b0 % 0x20) * 0x40 + b1 % 0x40)
        by (bit_vector);
}

/// The code of a form of three bytes is what masking, shifting and joining
/// its bytes gives: `(b0 & 0x0F) << 12 | (b1 & 0x3F) << 6 | (b2 & 0x3F)`.
/// It fits in 16 bits.
pub proof fn lemma_join_three(b0: u8, b1: u8, b2: u8)
    ensures
        (((b0 & 0x0f) as u16) << 12 | ((b1 & 0x3f) as u16) << 6 | ((b2 & 0x3f) as u16))
            == code_of_three(b0, b1, b2),
        0 <= code_of_three(b0, b1, b2) < 0x1_0000,
{
    assert((((b0 & 0x0f) as u16) << 12 | ((b1 & 0x3f) as u16) << 6 | ((b2 & 0x3f) as u16)) == (b0
        % 0x10) * 0x1000 + (b1 % 0x40) * 0x40 + b2 % 0x40) by (bit_vector);
}

/// Decodes the character that `bytes` begins with into its UCS-2 code.
/// Bytes after that character are not looked at.
pub fn utf8_to_ucs2(bytes: &[u8]) -> (r: Result<u16, DecodeError>)
    ensures
        r == decode(bytes@),
{
    let len = bytes.len();
    if len == 0 {
        return Err(DecodeError::TruncatedSequence);
    }
    let b0 = bytes[0];
    proof {
        lemma_lead_patterns(b0);
    }
    if b0 & 0b1000_0000 == 0b0000_0000 {
        Ok(b0 as u16)
    } else if b0 & 0b1110_0000 == 0b1100_0000 {
        if len < 2 {
            return Err(DecodeError::TruncatedSequence);
        }
        let b1 = bytes[1];
        let a = (b0 & 0b0001_1111) as u16;
        let b = (b1 & 0b0011_1111) as u16;
        proof {
            lemma_join_two(b0, b1);
        }
        Ok(a << 6 | b)
    } else if b0 & 0b1111_0000 == 0b1110_0000 {
        if len < 3 {
            return Err(DecodeError::TruncatedSequence);
        }
        let b1 = bytes[1];
        let b2 = bytes[2];
        let a = (b0 & 0b0000_1111) as u16;
        let b = (b1 & 0b0011_1111) as u16;
        let c = (b2 & 0b0011_1111) as u16;
        proof {
            lemma_join_three(b0, b1, b2);
        }
        Ok(a << 12 | b << 6 | c)
    } else if b0 & 0b1111_0000 == 0b1111_0000 {
        Err(DecodeError::UnsupportedCodepoint)
    } else {
        Err(DecodeError::InvalidEncoding)
    }
}

/// A single ASCII byte decodes to itself.
pub proof fn lemma_ascii_decodes_to_itself(b: u8)
    requires
        b <= 0x7f,
    ensures
        decode(seq![b]) == Ok::<u16, DecodeError>(b as u16),
{
}

/// Decoding fails for want of bytes exactly when the input is empty or its
/// first byte announces more bytes than the input holds.
pub proof fn lemma_truncated_iff(bytes: Seq<u8>)
    ensures
        decode(bytes) == Err::<u16, DecodeError>(DecodeError::TruncatedSequence) <==> {
            ||| bytes.len() == 0
            ||| bytes.len() < 2 && is_lead_of_two(bytes[0])
            ||| bytes.len() < 3 && is_lead_of_three(bytes[0])
        },
{
}

/// A first byte that opens a form of four bytes is refused as unsupported,
/// whatever follows it, and nothing else is.
pub proof fn lemma_unsupported_iff(bytes: Seq<u8>)
    ensures
        decode(bytes) == Err::<u16, DecodeError>(DecodeError::UnsupportedCodepoint) <==> (
        bytes.len() > 0 && is_lead_of_four(bytes[0])),
{
}

/// A first byte that is a continuation byte is refused as invalid, and
/// nothing else is.
pub proof fn lemma_invalid_iff(bytes: Seq<u8>)
    ensures
        decode(bytes) == Err::<u16, DecodeError>(DecodeError::InvalidEncoding) <==> (bytes.len()
            > 0 && 0x80 <= bytes[0] < 0xc0),
{
}

/// Only the first character counts: bytes that follow it change nothing.
pub proof fn lemma_rest_ignored(bytes: Seq<u8>, rest: Seq<u8>)
    requires
        decode(bytes) is Ok,
    ensures
        decode(bytes + rest) == decode(bytes),
{
    assert((bytes + rest)[0] == bytes[0]);
    if bytes.len() >= 2 {
        assert((bytes + rest)[1] == bytes[1]);
    }
    if bytes.len() >= 3 {
        assert((bytes + rest)[2] == bytes[2]);
    }
}

/// The UTF-8 encoding of a scalar value that takes two bytes.
proof fn lemma_decode_encoded_two(c: u32)
    by (bit_vector)
    requires
        0x80 <= c <= 0x7ff,
    ensures
        ({
            let b0 = 0xc0u8 | ((c >> 6) & 0x1f) as u8;
            let b1 = 0x80u8 | (c & 0x3f) as u8;
            &&& 0xc0u8 <= b0 < 0xe0u8
            &&& (b0 % 0x20) * 0x40 + b1 % 0x40 == c
        }),
{
}

/// The UTF-8 encoding of a scalar value that takes three bytes.
proof fn lemma_decode_encoded_three(c: u32)
    by (bit_vector)
    requires
        0x800 <= c <= 0xffff,
    ensures
        ({
            let b0 = 0xe0u8 | ((c >> 12) & 0x0f) as u8;
            let b1 = 0x80u8 | ((c >> 6) & 0x3f) as u8;
            let b2 = 0x80u8 | (c & 0x3f) as u8;
            &&& 0xe0u8 <= b0 < 0xf0u8
            &&& (b0 % 0x10) * 0x1000 + (b1 % 0x40) * 0x40 + b2 % 0x40 == c
        }),
{
}

/// The first byte of the UTF-8 encoding of a scalar value of one byte or of four.
proof fn lemma_decode_encoded_ends(c: u32)
    by (bit_vector)
    requires
        c <= 0x10_ffff,
    ensures
        c <= 0x7f ==> (c & 0x7f) as u8 == c,
        0x1_0000 <= c ==> 0xf0u8 | ((c >> 18) & 0x7) as u8 >= 0xf0u8,
{
}

/// Decoding undoes UTF-8 encoding: the encoding of a scalar value that fits
/// in 16 bits decodes to that value, whether it takes one byte (up to 0x7F),
/// two (0x80 to 0x7FF) or three. The encoding of a larger one is refused.
pub proof fn lemma_decode_encoded(c: u32)
    requires
        vstd::utf8::is_scalar(c),
    ensures
        c <= 0xffff ==> decode(encode_scalar(c)) == Ok::<u16, DecodeError>(c as u16),
        c > 0xffff ==> decode(encode_scalar(c)) == Err::<u16, DecodeError>(
            DecodeError::UnsupportedCodepoint,
        ),
{
    lemma_decode_encoded_ends(c);
    if 0x80 <= c <= 0x7ff {
        lemma_decode_encoded_two(c);
    } else if 0x800 <= c <= 0xffff {
        lemma_decode_encoded_three(c);
    }
}

/// Decoding the bytes of a string gives the code of its first character,
/// if the string has one and its code fits in 16 bits.
pub proof fn lemma_decode_string(chars: Seq<char>)
    ensures
        chars.len() == 0 ==> decode(encode_utf8(chars)) == Err::<u16, DecodeError>(
            DecodeError::TruncatedSequence,
        ),
        chars.len() > 0 && chars[0] as u32 <= 0xffff ==> decode(encode_utf8(chars)) == Ok::<
            u16,
            DecodeError,
        >(chars[0] as u32 as u16),
        chars.len() > 0 && chars[0] as u32 > 0xffff ==> decode(encode_utf8(chars)) == Err::<
            u16,
            DecodeError,
        >(DecodeError::UnsupportedCodepoint),
{
    if chars.len() > 0 {
        let c = chars[0] as u32;
        vstd::utf8::char_is_scalar(chars[0]);
        lemma_decode_encoded(c);
        let first = encode_scalar(c);
        let rest = encode_utf8(chars.drop_first());
        assert(encode_utf8(chars) == first + rest);
        if c <= 0xffff {
            lemma_rest_ignored(first, rest);
        } else {
            assert((first + rest)[0] == first[0]);
        }
    }
}

} // verus!
