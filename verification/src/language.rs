//! Classification of a UCS-2 code by the script block it lies in.

use vstd::prelude::*;

verus! {

/// The script block of a UCS-2 code.
#[derive(Debug, Clone, Copy, PartialEq, Eq, Hash, Structural)]
pub enum Languages {
    /// `0x0000..=0x007F`
    Ascii,
    /// Precomposed Hangul syllables, `0xAC00..=0xD7A3`
    Hangul,
    /// Hangul compatibility jamo, `0x3131..=0x3163`
    HangulJamo,
    /// Hiragana and katakana, `0x3040..=0x30FF`
    Kana,
    /// Arrows, `0x2190..=0x2199`
    Arrow,
    /// Any other code
    NotImplemented,
}

/// The block that `code` lies in, as a function of the code alone.
pub open spec fn language_of(code: u16) -> Languages {
    if code <= 0x007f {
        Languages::Ascii
    } else if 0xac00 <= code <= 0xd7a3 {
        Languages::Hangul
    } else if 0x3131 <= code <= 0x3163 {
        Languages::HangulJamo
    } else if 0x3040 <= code <= 0x30ff {
        Languages::Kana
    } else if 0x2190 <= code <= 0x2199 {
        Languages::Arrow
    } else {
        Languages::NotImplemented
    }
}

/// Returns the script block of a UCS-2 code.
pub fn ucs2_language(code: u16) -> (lang: Languages)
    ensures
        lang == language_of(code),
{
    match code {
        0x0000..=0x007f => Languages::Ascii,
        0xac00..=0xd7a3 => Languages::Hangul,
        0x3131..=0x3163 => Languages::HangulJamo,
        0x3040..=0x30ff => Languages::Kana,
        0x2190..=0x2199 => Languages::Arrow,
        _ => Languages::NotImplemented,
    }
}

/// The blocks do not overlap: a code lies in a block exactly when it lies
/// between the ends of that block, in whatever order the blocks are tried.
pub proof fn lemma_language_ranges(code: u16)
    ensures
        language_of(code) == Languages::Ascii <==> code <= 0x007f,
        language_of(code) == Languages::Hangul <==> 0xac00 <= code <= 0xd7a3,
        language_of(code) == Languages::HangulJamo <==> 0x3131 <= code <= 0x3163,
        language_of(code) == Languages::Kana <==> 0x3040 <= code <= 0x30ff,
        language_of(code) == Languages::Arrow <==> 0x2190 <= code <= 0x2199,
{
}

} // verus!
