//! Splitting a precomposed Hangul syllable into its three jamo.
//!
//! Unicode lays the precomposed syllables out from U+AC00 as a number of
//! three digits in mixed radix: the leading consonant is the slowest digit,
//! the vowel the middle one (radix 21) and the trailing consonant the
//! fastest (radix 28).

use vstd::prelude::*;
use crate::error::DecomposeError;

verus! {

/// Number of leading consonants (choseong).
pub const NUM_OF_CHO: u16 = 19;

/// Number of vowels (jungseong).
pub const NUM_OF_MID: u16 = 21;

/// Number of trailing consonants (jongseong), counting "none" as the first.
pub const NUM_OF_JONG: u16 = 28;

/// Code of the first precomposed syllable, U+AC00.
pub const HANGUL_FIRST: u16 = 0xac00;

/// Code of the last precomposed syllable, U+D7A3.
pub const HANGUL_LAST: u16 = 0xd7a3;

/// The jamo indices of one syllable.
///
/// - `cho`: leading consonant, one of ㄱㄲㄴㄷㄸㄹㅁㅂㅃㅅㅆㅇㅈㅉㅊㅋㅌㅍㅎ
/// - `mid`: vowel, one of ㅏㅐㅑㅒㅓㅔㅕㅖㅗㅘㅙㅚㅛㅜㅝㅞㅟㅠㅡㅢㅣ
/// - `jong`: trailing consonant, `0` when the syllable has none
#[derive(Debug, Clone, Copy, PartialEq, Eq, Hash, Structural)]
pub struct Jaso {
    pub cho: u8,
    pub mid: u8,
    pub jong: u8,
}

impl Jaso {
    /// Every index names an existing jamo.
    pub open spec fn wf(&self) -> bool {
        &&& self.cho < NUM_OF_CHO
        &&& self.mid < NUM_OF_MID
        &&& self.jong < NUM_OF_JONG
    }
}

impl Default for Jaso {
    /// All indices zero: the jamo of 가.
    fn default() -> (jaso: Jaso)
        ensures
            jaso == (Jaso { cho: 0, mid: 0, jong: 0 }),
    {
        Jaso { cho: 0, mid: 0, jong: 0 }
    }
}

/// Whether `code` lies in the block of precomposed syllables.
pub open spec fn is_syllable(code: u16) -> bool {
    HANGUL_FIRST <= code <= HANGUL_LAST
}

/// Whether `code` is admitted for decomposition: its top bit is set. This
/// is wider than the block of syllables.
pub open spec fn is_admitted(code: u16) -> bool {
    code >= 0x8000
}

/// Distance of `code` from U+AC00, taken modulo 2^16: a code below U+AC00
/// wraps around to the top of the 16-bit range.
pub open spec fn syllable_offset(code: u16) -> int {
    (code - HANGUL_FIRST) % 0x1_0000
}

/// The three digits of the offset of `code`.
pub open spec fn jaso_of(code: u16) -> Jaso {
    let offset = syllable_offset(code);
    Jaso {
        cho: (offset / (NUM_OF_JONG as int) / (NUM_OF_MID as int)) as u8,
        mid: ((offset / (NUM_OF_JONG as int)) % (NUM_OF_MID as int)) as u8,
        jong: (offset % (NUM_OF_JONG as int)) as u8,
    }
}

/// What decomposition returns for `code`.
pub open spec fn decompose(code: u16) -> Result<Jaso, DecomposeError> {
    if is_admitted(code) {
        Ok(jaso_of(code))
    } else {
        Err(DecomposeError::NotPrecomposedHangul)
    }
}

/// The code of the syllable made of the three jamo.
pub open spec fn syllable_code(cho: int, mid: int, jong: int) -> int {
    HANGUL_FIRST + (cho * NUM_OF_MID + mid) * NUM_OF_JONG + jong
}

/// Splits a UCS-2 code into the indices of its jamo.
///
/// A code with its top bit clear is refused. Every other code is split,
/// also one outside the block of syllables; the indices then name no jamo.
pub fn build_jaso(code: u16) -> (r: Result<Jaso, DecomposeError>)
    ensures
        r == decompose(code),
        !is_admitted(code) <==> r == Err::<Jaso, DecomposeError>(
            DecomposeError::NotPrecomposedHangul,
        ),
        is_admitted(code) <==> r == Ok::<Jaso, DecomposeError>(jaso_of(code)),
        r matches Ok(jaso) ==> (jaso.wf() <==> is_syllable(code)),
{
    if (code & 0b1000_0000_0000_0000) == 0b1000_0000_0000_0000 {
        assert(code & 0x8000 == 0x8000 ==> code >= 0x8000) by (bit_vector);
        let hancode = code.wrapping_sub(HANGUL_FIRST);
        assert(hancode == syllable_offset(code));
        let jong = hancode % NUM_OF_JONG;
        let mid = ((hancode - jong) / NUM_OF_JONG) % NUM_OF_MID;
        let cho = (hancode - jong) / NUM_OF_JONG / NUM_OF_MID;
        assert((hancode - jong) / 28 == hancode / 28);
        proof {
            lemma_wf_iff_syllable(code);
        }
        Ok(Jaso { cho: cho as u8, mid: mid as u8, jong: jong as u8 })
    } else {
        assert(code & 0x8000 != 0x8000 ==> code < 0x8000) by (bit_vector);
        Err(DecomposeError::NotPrecomposedHangul)
    }
}

/// An admitted code decomposes into indices that all name a jamo exactly
/// when it is the code of a syllable.
pub proof fn lemma_wf_iff_syllable(code: u16)
    requires
        is_admitted(code),
    ensures
        jaso_of(code).wf() <==> is_syllable(code),
{
    let offset = syllable_offset(code);
    assert(0 <= offset < 0x1_0000);
    assert(offset / 28 / 21 < 19 <==> offset < 19 * 21 * 28);
}

/// The syllable made of three jamo decomposes into just these jamo.
pub proof fn lemma_decompose_syllable_code(cho: u8, mid: u8, jong: u8)
    requires
        cho < NUM_OF_CHO,
        mid < NUM_OF_MID,
        jong < NUM_OF_JONG,
    ensures
        HANGUL_FIRST <= syllable_code(cho as int, mid as int, jong as int) <= HANGUL_LAST,
        decompose(syllable_code(cho as int, mid as int, jong as int) as u16) == Ok::<
            Jaso,
            DecomposeError,
        >(Jaso { cho, mid, jong }),
{
    let code = syllable_code(cho as int, mid as int, jong as int);
    let offset = (cho * 21 + mid) * 28 + jong;
    assert(0 <= offset < 19 * 21 * 28);
    assert(syllable_offset(code as u16) == offset);
    assert(offset / 28 == cho * 21 + mid);
    assert(offset % 28 == jong);
    assert((cho * 21 + mid) / 21 == cho);
    assert((cho * 21 + mid) % 21 == mid);
}

/// The jamo of a syllable put together again give its code.
pub proof fn lemma_syllable_code_of_jaso(code: u16)
    requires
        is_syllable(code),
    ensures
        jaso_of(code).wf(),
        syllable_code(
            jaso_of(code).cho as int,
            jaso_of(code).mid as int,
            jaso_of(code).jong as int,
        ) == code,
{
    lemma_wf_iff_syllable(code);
    let offset = syllable_offset(code);
    assert(offset == code - 0xac00);
}

/// A code below 0x8000 is never decomposed.
pub proof fn lemma_low_code_refused(code: u16)
    requires
        code < 0x8000,
    ensures
        decompose(code) == Err::<Jaso, DecomposeError>(DecomposeError::NotPrecomposedHangul),
{
}

impl TryFrom<u16> for Jaso {
    type Error = DecomposeError;

    /// The same as [`build_jaso`].
    fn try_from(code: u16) -> (r: Result<Jaso, DecomposeError>) {
        build_jaso(code)
    }
}

impl vstd::std_specs::convert::TryFromSpecImpl<u16> for Jaso {
    open spec fn obeys_try_from_spec() -> bool {
        true
    }

    open spec fn try_from_spec(code: u16) -> Result<Jaso, DecomposeError> {
        decompose(code)
    }
}

} // verus!
