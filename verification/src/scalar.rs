//! The eleven classification predicates on a codepoint value.
//!
//! Every function here takes the codepoint as a `u32` and computes its
//! category membership without a chain of range comparisons: a wrapping
//! subtraction folds an inclusive range into a single unsigned comparison,
//! a bit-OR folds the two letter cases together, a strip lookup handles the
//! categories made of several runs, and a bitmap probe handles the scattered
//! whitespace codepoints. Each predicate's contract states exact agreement
//! with the conventional range-union definition in [`crate::category`] for
//! every `u32` input, so both the byte family and the Unicode scalar family
//! can be built on the same core.

use vstd::prelude::*;

use crate::category;
use crate::strip;

verus! {

/// Chunk starting codepoints for the alphanumeric category: one strip of
/// digits and one strip of letters of each case, each inside its own
/// 32-codepoint chunk.
pub const ALPHANUMERIC_STARTS: [u8; 8] = [0, 48, 65, 97, 0, 0, 0, 0];

/// Strip lengths matching [`ALPHANUMERIC_STARTS`]: ten digits, twenty-six
/// letters of each case.
pub const ALPHANUMERIC_LENGTHS: [u8; 8] = [0, 10, 26, 26, 0, 0, 0, 0];

/// Chunk starting codepoints for the hexadecimal digit category: the same
/// chunk layout as the alphanumeric tables.
pub const HEXDIGIT_STARTS: [u8; 8] = [0, 48, 65, 97, 0, 0, 0, 0];

/// Strip lengths matching [`HEXDIGIT_STARTS`]: ten digits, six letters of
/// each case.
pub const HEXDIGIT_LENGTHS: [u8; 8] = [0, 10, 6, 6, 0, 0, 0, 0];

/// Chunk starting codepoints for the punctuation category, pre-shifted by
/// 6: the four punctuation runs straddle chunk boundaries where they stand,
/// but adding 6 to the codepoint moves each run inside its own chunk.
pub const PUNCTUATION_STARTS: [u8; 8] = [0, 39, 64, 97, 129, 0, 0, 0];

/// Strip lengths matching [`PUNCTUATION_STARTS`]: the runs `'!'` through
/// `'/'`, `':'` through `'@'`, `'['` through `` '`' ``, and `'{'` through
/// `'~'`.
pub const PUNCTUATION_LENGTHS: [u8; 8] = [0, 15, 7, 6, 4, 0, 0, 0];

/// Bitmap of the whitespace codepoints, indexed by codepoint value: bits 9
/// through 13 (horizontal tab, line feed, vertical tab, form feed,
/// carriage return) and bit 32 (space) are set.
pub const WHITESPACE_BITS: u64 = 0b1_0000_0000_0000_0000_0011_1110_0000_0000;

/// Forcing bit 5 on (`| 0x20`) maps each uppercase letter to its lowercase
/// partner 32 above it and moves nothing else into the lowercase strip, so
/// one range check on the folded value covers both letter cases.
proof fn lemma_case_fold(x: u32)
    by (bit_vector)
    ensures
        (97 <= (x | 0x20) && (x | 0x20) < 123) == ((65 <= x && x < 91) || (97 <= x && x < 123)),
{
}

/// Probing the whitespace bitmap at index `x` answers exactly the
/// membership question for the six whitespace codepoints.
proof fn lemma_whitespace_bitmap(x: u32)
    by (bit_vector)
    requires
        x <= 32,
    ensures
        (((WHITESPACE_BITS >> x) & 1) != 0) == (x == 9 || x == 10 || x == 11 || x == 12
            || x == 13 || x == 32),
{
}

/// The alphanumeric table pair makes the strip lookup agree with the
/// range-union definition of the alphanumeric category on every codepoint.
proof fn lemma_alphanumeric_tables(x: u32)
    ensures
        strip::strip_hit(x, ALPHANUMERIC_STARTS@, ALPHANUMERIC_LENGTHS@)
            == category::alphanumeric(x),
{
    strip::lemma_chunk_of(x);
}

/// The hexadecimal digit table pair makes the strip lookup agree with the
/// range-union definition of the hexadecimal digit category on every
/// codepoint.
proof fn lemma_hexdigit_tables(x: u32)
    ensures
        strip::strip_hit(x, HEXDIGIT_STARTS@, HEXDIGIT_LENGTHS@) == category::hexdigit(x),
{
    strip::lemma_chunk_of(x);
}

/// After the wrapping pre-add of 6, the punctuation table pair makes the
/// strip lookup agree with the range-union definition of the punctuation
/// category on every codepoint.
proof fn lemma_punctuation_tables(x: u32)
    ensures
        strip::strip_hit(
            vstd::wrapping::u32_specs::wrapping_add(x, 6),
            PUNCTUATION_STARTS@,
            PUNCTUATION_LENGTHS@,
        ) == category::punctuation(x),
{
    let y = vstd::wrapping::u32_specs::wrapping_add(x, 6);
    strip::lemma_chunk_of(y);
}

/// Whether `x` is an ASCII codepoint.
#[inline]
pub fn is_ascii(x: u32) -> (r: bool)
    ensures
        r == category::ascii(x),
{
    x < 128
}

/// Whether `x` is an ASCII letter, by case-folding: forcing bit 5 on maps
/// both cases of a letter to the lowercase strip, so one folded range
/// check replaces two.
#[inline]
pub fn is_ascii_alphabetic(x: u32) -> (r: bool)
    ensures
        r == category::alphabetic(x),
{
    let folded = x | 0x20;
    proof {
        lemma_case_fold(x);
    }
    folded.wrapping_sub(97) < 26
}

/// Whether `x` is an ASCII letter or digit, by strip lookup.
#[inline]
pub fn is_ascii_alphanumeric(x: u32) -> (r: bool)
    ensures
        r == category::alphanumeric(x),
{
    let r = strip::strip_of_each_chunk(x, &ALPHANUMERIC_STARTS, &ALPHANUMERIC_LENGTHS);
    proof {
        lemma_alphanumeric_tables(x);
    }
    r
}

/// Whether `x` is an ASCII control codepoint.
#[inline]
pub fn is_ascii_control(x: u32) -> (r: bool)
    ensures
        r == category::control(x),
{
    x < 32 || x == 127
}

/// Whether `x` is a decimal digit: sliding the digit strip down to zero
/// turns the two-sided range check into one unsigned comparison.
#[inline]
pub fn is_ascii_digit(x: u32) -> (r: bool)
    ensures
        r == category::digit(x),
{
    x.wrapping_sub(48) < 10
}

/// Whether `x` is an ASCII graphic codepoint, by the same sliding range
/// check as the digit predicate.
#[inline]
pub fn is_ascii_graphic(x: u32) -> (r: bool)
    ensures
        r == category::graphic(x),
{
    x.wrapping_sub(33) < 94
}

/// Whether `x` is a hexadecimal digit, by strip lookup.
#[inline]
pub fn is_ascii_hexdigit(x: u32) -> (r: bool)
    ensures
        r == category::hexdigit(x),
{
    let r = strip::strip_of_each_chunk(x, &HEXDIGIT_STARTS, &HEXDIGIT_LENGTHS);
    proof {
        lemma_hexdigit_tables(x);
    }
    r
}

/// Whether `x` is an ASCII lowercase letter, by a sliding range check.
#[inline]
pub fn is_ascii_lowercase(x: u32) -> (r: bool)
    ensures
        r == category::lowercase(x),
{
    x.wrapping_sub(97) < 26
}

/// Whether `x` is ASCII punctuation: a wrapping pre-add of 6 moves each of
/// the four punctuation runs inside its own chunk, and the strip lookup
/// does the rest.
#[inline]
pub fn is_ascii_punctuation(x: u32) -> (r: bool)
    ensures
        r == category::punctuation(x),
{
    let shifted = x.wrapping_add(6);
    let r = strip::strip_of_each_chunk(shifted, &PUNCTUATION_STARTS, &PUNCTUATION_LENGTHS);
    proof {
        lemma_punctuation_tables(x);
    }
    r
}

/// Whether `x` is an ASCII uppercase letter, by a sliding range check.
#[inline]
pub fn is_ascii_uppercase(x: u32) -> (r: bool)
    ensures
        r == category::uppercase(x),
{
    x.wrapping_sub(65) < 26
}

/// Whether `x` is ASCII whitespace: the six whitespace codepoints are
/// scattered, so a bitmap indexed by the codepoint answers membership. The
/// guard keeps the shift amount inside the bitmap's width.
#[inline]
pub fn is_ascii_whitespace(x: u32) -> (r: bool)
    ensures
        r == category::whitespace(x),
{
    let r = x <= 32 && ((WHITESPACE_BITS >> x) & 1) != 0;
    proof {
        if x <= 32 {
            lemma_whitespace_bitmap(x);
        }
    }
    r
}

} // verus!

