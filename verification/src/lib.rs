//! Decomposition of precomposed Hangul syllables into their jamo and the
//! glyph sets of an 8x4x4 bitmap font.
//!
//! The way from a character to its glyphs has three steps, each usable on
//! its own: [`utf8_to_ucs2`] decodes the bytes of the character into its
//! UCS-2 code, [`build_jaso`] splits the code into the indices of the
//! leading consonant, the vowel and the trailing consonant, and
//! [`build_bul`] picks for each of them the glyph set that fits its
//! neighbours. [`build_jaso_bul`] takes all three steps.

pub mod bul;
pub mod error;
pub mod jaso;
pub mod language;
pub mod syllable;
pub mod utf8;

pub use bul::{build_bul, Bul};
pub use error::{DecodeError, DecomposeError, Error};
pub use jaso::{build_jaso, Jaso, HANGUL_FIRST, HANGUL_LAST, NUM_OF_CHO, NUM_OF_JONG, NUM_OF_MID};
pub use language::{ucs2_language, Languages};
pub use syllable::build_jaso_bul;
pub use utf8::utf8_to_ucs2;
