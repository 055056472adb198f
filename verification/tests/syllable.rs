use hangul_jaso::{
    build_bul, build_jaso, build_jaso_bul, utf8_to_ucs2, Bul, DecodeError, DecomposeError, Error,
    Jaso,
};

#[test]
fn samples_go_all_the_way() {
    assert_eq!(
        build_jaso_bul("가".as_bytes()),
        Ok((
            Jaso { cho: 0, mid: 0, jong: 0 },
            Bul { cho: Some(0), mid: Some(0), jong: None }
        ))
    );
    assert_eq!(
        build_jaso_bul("각".as_bytes()),
        Ok((
            Jaso { cho: 0, mid: 0, jong: 1 },
            Bul { cho: Some(5), mid: Some(2), jong: Some(0) }
        ))
    );
    assert_eq!(
        build_jaso_bul("고".as_bytes()),
        Ok((
            Jaso { cho: 0, mid: 8, jong: 0 },
            Bul { cho: Some(1), mid: Some(0), jong: None }
        ))
    );
    assert_eq!(
        build_jaso_bul("구".as_bytes()),
        Ok((
            Jaso { cho: 0, mid: 13, jong: 0 },
            Bul { cho: Some(2), mid: Some(0), jong: None }
        ))
    );
    assert_eq!(
        build_jaso_bul("덇".as_bytes()),
        Ok((
            Jaso { cho: 3, mid: 3, jong: 15 },
            Bul { cho: Some(5), mid: Some(3), jong: Some(2) }
        ))
    );
    assert_eq!(
        build_jaso_bul("얹".as_bytes()),
        Ok((
            Jaso { cho: 11, mid: 4, jong: 5 },
            Bul { cho: Some(5), mid: Some(3), jong: Some(1) }
        ))
    );
}

#[test]
fn decode_failures_come_first() {
    assert_eq!(
        build_jaso_bul(&[]),
        Err(Error::Decode(DecodeError::TruncatedSequence))
    );
    assert_eq!(
        build_jaso_bul(&[0xea, 0xb0]),
        Err(Error::Decode(DecodeError::TruncatedSequence))
    );
    assert_eq!(
        build_jaso_bul("😀".as_bytes()),
        Err(Error::Decode(DecodeError::UnsupportedCodepoint))
    );
    assert_eq!(
        build_jaso_bul(&[0x80]),
        Err(Error::Decode(DecodeError::InvalidEncoding))
    );
}

#[test]
fn decomposition_failures_follow() {
    assert_eq!(
        build_jaso_bul("a".as_bytes()),
        Err(Error::Decompose(DecomposeError::NotPrecomposedHangul))
    );
    assert_eq!(
        build_jaso_bul("é".as_bytes()),
        Err(Error::Decompose(DecomposeError::NotPrecomposedHangul))
    );
    assert_eq!(
        build_jaso_bul("あ".as_bytes()),
        Err(Error::Decompose(DecomposeError::NotPrecomposedHangul))
    );
}

#[test]
fn one_step_agrees_with_three() {
    for c in 0u32..=0xffff {
        if let Some(ch) = char::from_u32(c) {
            let mut buf = [0u8; 4];
            let bytes = ch.encode_utf8(&mut buf).as_bytes();
            let code = utf8_to_ucs2(bytes).unwrap();
            let expected = match build_jaso(code) {
                Ok(jaso) => Ok((jaso, build_bul(&jaso))),
                Err(e) => Err(Error::Decompose(e)),
            };
            assert_eq!(build_jaso_bul(bytes), expected);
        }
    }
}

#[test]
fn velar_and_tense_leads_go_all_the_way() {
    assert_eq!(
        build_jaso_bul("카".as_bytes()),
        Ok((
            Jaso { cho: 15, mid: 0, jong: 0 },
            Bul { cho: Some(0), mid: Some(0), jong: None }
        ))
    );
    assert_eq!(
        build_jaso_bul("킥".as_bytes()),
        Ok((
            Jaso { cho: 15, mid: 20, jong: 1 },
            Bul { cho: Some(5), mid: Some(2), jong: Some(1) }
        ))
    );
    assert_eq!(
        build_jaso_bul("까".as_bytes()),
        Ok((
            Jaso { cho: 1, mid: 0, jong: 0 },
            Bul { cho: Some(0), mid: Some(1), jong: None }
        ))
    );
}
