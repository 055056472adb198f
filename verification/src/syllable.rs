//! From the bytes of a character to its jamo and their glyph sets in one step.

use vstd::prelude::*;
use crate::bul::{build_bul, bul_of, Bul};
use crate::error::Error;
use crate::jaso::{build_jaso, decompose, Jaso};
use crate::utf8::{decode, utf8_to_ucs2};

verus! {

/// What the whole way from bytes to glyph sets returns: the first step
/// that fails decides the error.
pub open spec fn jaso_bul_of(bytes: Seq<u8>) -> Result<(Jaso, Bul), Error> {
    match decode(bytes) {
        Err(e) => Err(Error::Decode(e)),
        Ok(code) => match decompose(code) {
            Err(e) => Err(Error::Decompose(e)),
            Ok(jaso) => Ok((jaso, bul_of(jaso))),
        },
    }
}

/// Decodes the character that `bytes` begins with, splits it into jamo and
/// picks the glyph set of each.
pub fn build_jaso_bul(bytes: &[u8]) -> (r: Result<(Jaso, Bul), Error>)
    ensures
        r == jaso_bul_of(bytes@),
{
    let code = match utf8_to_ucs2(bytes) {
        Ok(code) => code,
        Err(e) => {
            return Err(Error::Decode(e));
        },
    };
    let jaso = match build_jaso(code) {
        Ok(jaso) => jaso,
        Err(e) => {
            return Err(Error::Decompose(e));
        },
    };
    let bul = build_bul(&jaso);
    Ok((jaso, bul))
}

/// The bytes of a string that begins with a precomposed syllable give the
/// jamo of that syllable, all of them existing, and a glyph set for each
/// of them.
pub proof fn lemma_jaso_bul_of_syllable(chars: Seq<char>)
    requires
        chars.len() > 0,
        0xac00 <= chars[0] as u32 <= 0xd7a3,
    ensures
        jaso_bul_of(vstd::utf8::encode_utf8(chars)) matches Ok((jaso, bul)) && {
            &&& jaso == crate::jaso::jaso_of(chars[0] as u32 as u16)
            &&& jaso.wf()
            &&& bul == bul_of(jaso)
            &&& bul.cho is Some
            &&& bul.mid is Some
        },
{
    crate::utf8::lemma_decode_string(chars);
    let code = chars[0] as u32 as u16;
    crate::jaso::lemma_wf_iff_syllable(code);
    crate::bul::lemma_bul_of_wf(crate::jaso::jaso_of(code));
}

} // verus!
