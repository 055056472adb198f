//! Choosing, for each jamo of a syllable, the glyph set ("bul") of an
//! 8x4x4 bitmap font: eight sets of leading consonants, four of vowels and
//! four of trailing consonants. Which set a jamo is drawn from depends on
//! the shape of its neighbours.

use vstd::prelude::*;
use crate::jaso::Jaso;

verus! {

/// The glyph set of each jamo of one syllable; `None` where the syllable
/// has no glyph to draw in that position.
#[derive(Debug, Clone, Copy, PartialEq, Eq, Hash)]
pub struct Bul {
    pub cho: Option<u8>,
    pub mid: Option<u8>,
    pub jong: Option<u8>,
}

/// The vowels drawn to the right of the consonant: ㅏㅐㅑㅒㅓㅔㅕㅖㅣ.
pub open spec fn is_vertical_vowel(mid: u8) -> bool {
    mid <= 7 || mid == 20
}

/// The vowels drawn below the consonant with an upward or no stem: ㅗㅛㅡ.
pub open spec fn is_o_vowel(mid: u8) -> bool {
    mid == 8 || mid == 12 || mid == 18
}

/// The vowels drawn below the consonant with a downward stem: ㅜㅠ.
pub open spec fn is_u_vowel(mid: u8) -> bool {
    mid == 13 || mid == 17
}

/// The compound vowels built on ㅗ or ㅡ: ㅘㅙㅚㅢ.
pub open spec fn is_o_compound(mid: u8) -> bool {
    9 <= mid <= 11 || mid == 19
}

/// The compound vowels built on ㅜ: ㅝㅞㅟ.
pub open spec fn is_u_compound(mid: u8) -> bool {
    14 <= mid <= 16
}

/// The velar leading consonants ㄱ and ㅋ, first and sixteenth of the
/// leading consonants. The tense ㄲ between them in value is not one.
pub open spec fn is_velar_consonant(cho: u8) -> bool {
    cho == 0 || cho == 15
}

/// Set of the leading consonant beside vowel `mid`; `closed` says whether a
/// trailing consonant follows. Sets 0 to 4 serve open syllables, one for
/// each vowel shape; sets 5 to 7 serve closed ones, where the two kinds of
/// horizontal vowel share a set and so do the two kinds of compound vowel.
pub open spec fn cho_bul(mid: u8, closed: bool) -> Option<u8> {
    if is_vertical_vowel(mid) {
        Some(if closed { 5u8 } else { 0u8 })
    } else if is_o_vowel(mid) {
        Some(if closed { 6u8 } else { 1u8 })
    } else if is_u_vowel(mid) {
        Some(if closed { 6u8 } else { 2u8 })
    } else if is_o_compound(mid) {
        Some(if closed { 7u8 } else { 3u8 })
    } else if is_u_compound(mid) {
        Some(if closed { 7u8 } else { 4u8 })
    } else {
        None
    }
}

/// Set of the vowel after leading consonant `cho`: sets 0 and 1 in an open
/// syllable, 2 and 3 in a closed one; the even one goes with ㄱ and ㅋ.
pub open spec fn mid_bul(cho: u8, closed: bool) -> Option<u8> {
    if is_velar_consonant(cho) {
        Some(if closed { 2u8 } else { 0u8 })
    } else if cho <= 18 {
        Some(if closed { 3u8 } else { 1u8 })
    } else {
        None
    }
}

/// Set of a trailing consonant under vowel `mid`.
pub open spec fn jong_bul(mid: u8) -> Option<u8> {
    if mid == 0 || mid == 2 || mid == 9 {
        // ㅏㅑㅘ
        Some(0u8)
    } else if mid == 4 || mid == 6 || mid == 11 || mid == 14 || mid == 16 || mid == 19 || mid
        == 20 {
        // ㅓㅕㅚㅝㅟㅢㅣ
        Some(1u8)
    } else if mid == 1 || mid == 3 || mid == 5 || mid == 7 || mid == 10 || mid == 15 {
        // ㅐㅒㅔㅖㅙㅞ
        Some(2u8)
    } else if is_o_vowel(mid) || is_u_vowel(mid) {
        // ㅗㅛㅜㅠㅡ
        Some(3u8)
    } else {
        None
    }
}

/// The glyph sets of the three jamo of `jaso`.
pub open spec fn bul_of(jaso: Jaso) -> Bul {
    let closed = jaso.jong != 0;
    Bul {
        cho: cho_bul(jaso.mid, closed),
        mid: mid_bul(jaso.cho, closed),
        jong: if closed { jong_bul(jaso.mid) } else { None },
    }
}

/// Picks the glyph set of each jamo of `jaso`.
///
/// The indices of `jaso` are taken as they are: one that names no jamo
/// leaves `None` in the positions that depend on it.
pub fn build_bul(jaso: &Jaso) -> (bul: Bul)
    ensures
        bul == bul_of(*jaso),
        jaso.wf() ==> bul.cho is Some && bul.mid is Some,
        jaso.wf() ==> (bul.jong is None <==> jaso.jong == 0),
{
    let cho: Option<u8>;
    let mid: Option<u8>;
    let jong: Option<u8>;
    if jaso.jong == 0 {
        cho = match jaso.mid {
            0..=7 | 20 => Some(0),
            8 | 12 | 18 => Some(1),
            13 | 17 => Some(2),
            9..=11 | 19 => Some(3),
            14..=16 => Some(4),
            _ => None,
        };
        mid = match jaso.cho {
            0 | 15 => Some(0),
            1..=14 | 16..=18 => Some(1),
            _ => None,
        };
        jong = None;
    } else {
        cho = match jaso.mid {
            0..=7 | 20 => Some(5),
            8 | 12 | 13 | 17 | 18 => Some(6),
            9..=11 | 14..=16 | 19 => Some(7),
            _ => None,
        };
        mid = match jaso.cho {
            0 | 15 => Some(2),
            1..=14 | 16..=18 => Some(3),
            _ => None,
        };
        jong = match jaso.mid {
            0 | 2 | 9 => Some(0),
            4 | 6 | 11 | 14 | 16 | 19 | 20 => Some(1),
            1 | 3 | 5 | 7 | 10 | 15 => Some(2),
            8 | 12 | 13 | 17 | 18 => Some(3),
            _ => None,
        };
    }
    Bul { cho, mid, jong }
}

impl Default for Bul {
    /// No glyph in any position.
    fn default() -> (bul: Bul)
        ensures
            bul == (Bul { cho: None, mid: None, jong: None }),
    {
        Bul { cho: None, mid: None, jong: None }
    }
}

impl From<&Jaso> for Bul {
    /// The same as [`build_bul`].
    fn from(jaso: &Jaso) -> (bul: Bul) {
        build_bul(jaso)
    }
}

impl vstd::std_specs::convert::FromSpecImpl<&Jaso> for Bul {
    open spec fn obeys_from_spec() -> bool {
        true
    }

    open spec fn from_spec(jaso: &Jaso) -> Bul {
        bul_of(*jaso)
    }
}

/// Every vowel has exactly one of the five shapes.
pub proof fn lemma_vowel_shapes_partition(mid: u8)
    requires
        mid < crate::jaso::NUM_OF_MID,
    ensures
        is_vertical_vowel(mid) || is_o_vowel(mid) || is_u_vowel(mid) || is_o_compound(mid)
            || is_u_compound(mid),
        !(is_vertical_vowel(mid) && is_o_vowel(mid)),
        !(is_vertical_vowel(mid) && is_u_vowel(mid)),
        !(is_vertical_vowel(mid) && is_o_compound(mid)),
        !(is_vertical_vowel(mid) && is_u_compound(mid)),
        !(is_o_vowel(mid) && is_u_vowel(mid)),
        !(is_o_vowel(mid) && is_o_compound(mid)),
        !(is_o_vowel(mid) && is_u_compound(mid)),
        !(is_u_vowel(mid) && is_o_compound(mid)),
        !(is_u_vowel(mid) && is_u_compound(mid)),
        !(is_o_compound(mid) && is_u_compound(mid)),
{
}

/// For jamo that exist, every position that has a glyph gets a set, and
/// the set lies within the font: eight sets of leading consonants, four of
/// vowels, four of trailing consonants. The trailing position is empty
/// exactly when the syllable has no trailing consonant.
pub proof fn lemma_bul_of_wf(jaso: Jaso)
    requires
        jaso.wf(),
    ensures
        bul_of(jaso).cho matches Some(set) && set < 8,
        bul_of(jaso).mid matches Some(set) && set < 4,
        jaso.jong == 0 <==> bul_of(jaso).jong is None,
        bul_of(jaso).jong matches Some(set) ==> set < 4,
{
}

/// An open syllable takes the leading consonant from sets 0 to 4 and the
/// vowel from sets 0 and 1; a closed one takes them from sets 5 to 7 and
/// from sets 2 and 3.
pub proof fn lemma_bul_of_open_closed(jaso: Jaso)
    requires
        jaso.wf(),
    ensures
        jaso.jong == 0 ==> bul_of(jaso).cho.unwrap() < 5 && bul_of(jaso).mid.unwrap() < 2,
        jaso.jong != 0 ==> 5 <= bul_of(jaso).cho.unwrap() < 8 && 2 <= bul_of(jaso).mid.unwrap()
            < 4,
{
}

/// Which trailing consonant closes the syllable does not matter, only
/// whether one does.
pub proof fn lemma_bul_of_any_trailing(a: Jaso, b: Jaso)
    requires
        a.cho == b.cho,
        a.mid == b.mid,
        a.jong != 0,
        b.jong != 0,
    ensures
        bul_of(a) == bul_of(b),
{
}

/// In a closed syllable the sets of the leading and of the trailing
/// consonant agree on the horizontal vowels ㅗㅛㅜㅠㅡ: the one is set 6
/// exactly when the other is set 3.
pub proof fn lemma_horizontal_vowel_sets(jaso: Jaso)
    requires
        jaso.jong != 0,
    ensures
        bul_of(jaso).cho == Some(6u8) <==> bul_of(jaso).jong == Some(3u8),
{
}

/// The vowel is drawn from an even set, 0 or 2, exactly when the leading
/// consonant is ㄱ or ㅋ.
pub proof fn lemma_velar_vowel_sets(jaso: Jaso)
    requires
        jaso.wf(),
    ensures
        is_velar_consonant(jaso.cho) <==> (bul_of(jaso).mid == Some(0u8) || bul_of(jaso).mid
            == Some(2u8)),
        !is_velar_consonant(jaso.cho) <==> (bul_of(jaso).mid == Some(1u8) || bul_of(jaso).mid
            == Some(3u8)),
{
}

} // verus!
