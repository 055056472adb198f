use hangul_jaso::{utf8_to_ucs2, DecodeError};

#[test]
fn ascii_bytes_decode_to_themselves() {
    for b in 0u8..=127 {
        assert_eq!(utf8_to_ucs2(&[b]), Ok(u16::from(b)));
    }
}

#[test]
fn two_byte_characters_round_trip() {
    for c in 0x80u32..=0x7ff {
        let ch = char::from_u32(c).unwrap();
        let mut buf = [0u8; 4];
        let bytes = ch.encode_utf8(&mut buf).as_bytes();
        assert_eq!(bytes.len(), 2);
        assert_eq!(utf8_to_ucs2(bytes), Ok(c as u16));
    }
}

#[test]
fn three_byte_characters_round_trip() {
    for c in 0x800u32..=0xffff {
        if let Some(ch) = char::from_u32(c) {
            let mut buf = [0u8; 4];
            let bytes = ch.encode_utf8(&mut buf).as_bytes();
            assert_eq!(bytes.len(), 3);
            assert_eq!(utf8_to_ucs2(bytes), Ok(c as u16));
        }
    }
}

#[test]
fn two_byte_formula_exact_value() {
    // é, U+00E9: (0xC3 & 0x1F) << 6 | (0xA9 & 0x3F)
    assert_eq!(utf8_to_ucs2(&[0xc3, 0xa9]), Ok(0x00e9));
    assert_eq!(utf8_to_ucs2(&[0xdf, 0xbf]), Ok(0x07ff));
    assert_eq!(utf8_to_ucs2(&[0xc2, 0x80]), Ok(0x0080));
}

#[test]
fn three_byte_formula_exact_value() {
    assert_eq!(utf8_to_ucs2(&[0xea, 0xb0, 0x80]), Ok(0xac00));
    assert_eq!(utf8_to_ucs2(&[0xef, 0xbf, 0xbf]), Ok(0xffff));
    assert_eq!(utf8_to_ucs2(&[0xe0, 0xa0, 0x80]), Ok(0x0800));
}

#[test]
fn hangul_samples_decode() {
    assert_eq!(utf8_to_ucs2("가".as_bytes()), Ok(0xac00));
    assert_eq!(utf8_to_ucs2("각".as_bytes()), Ok(0xac01));
    assert_eq!(utf8_to_ucs2("고".as_bytes()), Ok(0xace0));
    assert_eq!(utf8_to_ucs2("구".as_bytes()), Ok(0xad6c));
    assert_eq!(utf8_to_ucs2("덇".as_bytes()), Ok(0xb347));
    assert_eq!(utf8_to_ucs2("얹".as_bytes()), Ok(0xc5b9));
    assert_eq!(utf8_to_ucs2("힣".as_bytes()), Ok(0xd7a3));
}

#[test]
fn bytes_after_the_first_character_are_ignored() {
    assert_eq!(utf8_to_ucs2("가나다".as_bytes()), Ok(0xac00));
    assert_eq!(utf8_to_ucs2("az".as_bytes()), Ok(0x61));
    assert_eq!(utf8_to_ucs2(&[0x41, 0xff, 0x80]), Ok(0x41));
    assert_eq!(utf8_to_ucs2(&[0xc3, 0xa9, 0xf0]), Ok(0x00e9));
}

#[test]
fn empty_input_is_truncated() {
    assert_eq!(utf8_to_ucs2(&[]), Err(DecodeError::TruncatedSequence));
    assert_eq!(utf8_to_ucs2("".as_bytes()), Err(DecodeError::TruncatedSequence));
}

#[test]
fn lead_byte_without_continuation_is_truncated() {
    for b in 0xc0u8..=0xdf {
        assert_eq!(utf8_to_ucs2(&[b]), Err(DecodeError::TruncatedSequence));
    }
    for b in 0xe0u8..=0xef {
        assert_eq!(utf8_to_ucs2(&[b]), Err(DecodeError::TruncatedSequence));
        assert_eq!(utf8_to_ucs2(&[b, 0x80]), Err(DecodeError::TruncatedSequence));
    }
}

#[test]
fn four_byte_lead_is_unsupported() {
    for b in 0xf0u8..=0xff {
        assert_eq!(utf8_to_ucs2(&[b]), Err(DecodeError::UnsupportedCodepoint));
        assert_eq!(
            utf8_to_ucs2(&[b, 0x9f, 0x98, 0x80]),
            Err(DecodeError::UnsupportedCodepoint)
        );
    }
    assert_eq!(
        utf8_to_ucs2("😀".as_bytes()),
        Err(DecodeError::UnsupportedCodepoint)
    );
}

#[test]
fn stray_continuation_byte_is_invalid() {
    for b in 0x80u8..=0xbf {
        assert_eq!(utf8_to_ucs2(&[b]), Err(DecodeError::InvalidEncoding));
        assert_eq!(utf8_to_ucs2(&[b, 0x80, 0x80]), Err(DecodeError::InvalidEncoding));
    }
}

#[test]
fn continuation_bytes_are_masked_not_checked() {
    // The top two bits of a continuation byte are dropped, whatever they are.
    assert_eq!(utf8_to_ucs2(&[0xc3, 0x29]), Ok(0x00e9));
    assert_eq!(utf8_to_ucs2(&[0xc3, 0xe9]), Ok(0x00e9));
    assert_eq!(utf8_to_ucs2(&[0xea, 0x30, 0x00]), Ok(0xac00));
    assert_eq!(utf8_to_ucs2(&[0xea, 0xf0, 0xc1]), Ok(0xac01));
    assert_eq!(utf8_to_ucs2(&[0xc0, 0x00]), Ok(0x0000));
}

#[test]
fn every_first_byte_falls_in_one_class() {
    for b in 0u8..=255 {
        let r = utf8_to_ucs2(&[b]);
        let expected = match b {
            0x00..=0x7f => Ok(u16::from(b)),
            0x80..=0xbf => Err(DecodeError::InvalidEncoding),
            0xc0..=0xef => Err(DecodeError::TruncatedSequence),
            0xf0..=0xff => Err(DecodeError::UnsupportedCodepoint),
        };
        assert_eq!(r, expected);
    }
}
