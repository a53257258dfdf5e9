//! Branch-minimized ASCII classification predicates.
//!
//! Eleven boolean predicates classify a single value — an 8-bit byte or a
//! full Unicode scalar — into the usual ASCII categories. Each predicate is
//! computed with arithmetic and bitmask tricks (wrapping subtraction to fold
//! a range check into one comparison, bit-OR case folding, a table-driven
//! strip lookup, a bitmap probe) rather than chains of range comparisons,
//! and each is proved to return exactly what the conventional range-union
//! definition of its category returns, over its whole input domain.

use vstd::prelude::*;

pub mod category;
pub mod strip;
pub mod scalar;

verus! {

/// The eleven ASCII classification predicates, offered on both input
/// domains: bytes (`u8`, the full 0 through 255 range) and Unicode scalar
/// values (`char`). Every predicate is total over its domain, has no side
/// effects, and returns exactly what the conventional range-union
/// definition of its category returns for the receiver's codepoint.
pub trait IsAscii2 {
    /// The receiver's codepoint: the numeric value this predicate family
    /// classifies.
    spec fn codepoint(&self) -> u32;

    fn is_ascii_2(&self) -> (r: bool)
        ensures
            r == category::ascii(self.codepoint()),
    ;

    fn is_ascii_alphabetic_2(&self) -> (r: bool)
        ensures
            r == category::alphabetic(self.codepoint()),
    ;

    fn is_ascii_alphanumeric_2(&self) -> (r: bool)
        ensures
            r == category::alphanumeric(self.codepoint()),
    ;

    fn is_ascii_control_2(&self) -> (r: bool)
        ensures
            r == category::control(self.codepoint()),
    ;

    fn is_ascii_digit_2(&self) -> (r: bool)
        ensures
            r == category::digit(self.codepoint()),
    ;

    fn is_ascii_graphic_2(&self) -> (r: bool)
        ensures
            r == category::graphic(self.codepoint()),
    ;

    fn is_ascii_hexdigit_2(&self) -> (r: bool)
        ensures
            r == category::hexdigit(self.codepoint()),
    ;

    fn is_ascii_lowercase_2(&self) -> (r: bool)
        ensures
            r == category::lowercase(self.codepoint()),
    ;

    fn is_ascii_punctuation_2(&self) -> (r: bool)
        ensures
            r == category::punctuation(self.codepoint()),
    ;

    fn is_ascii_uppercase_2(&self) -> (r: bool)
        ensures
            r == category::uppercase(self.codepoint()),
    ;

    fn is_ascii_whitespace_2(&self) -> (r: bool)
        ensures
            r == category::whitespace(self.codepoint()),
    ;
}

impl IsAscii2 for u8 {
    open spec fn codepoint(&self) -> u32 {
        *self as u32
    }

    #[inline]
    fn is_ascii_2(&self) -> bool {
        scalar::is_ascii(*self as u32)
    }

    #[inline]
    fn is_ascii_alphabetic_2(&self) -> bool {
        scalar::is_ascii_alphabetic(*self as u32)
    }

    #[inline]
    fn is_ascii_alphanumeric_2(&self) -> bool {
        scalar::is_ascii_alphanumeric(*self as u32)
    }

    #[inline]
    fn is_ascii_control_2(&self) -> bool {
        scalar::is_ascii_control(*self as u32)
    }

    #[inline]
    fn is_ascii_digit_2(&self) -> bool {
        scalar::is_ascii_digit(*self as u32)
    }

    #[inline]
    fn is_ascii_graphic_2(&self) -> bool {
        scalar::is_ascii_graphic(*self as u32)
    }

    #[inline]
    fn is_ascii_hexdigit_2(&self) -> bool {
        scalar::is_ascii_hexdigit(*self as u32)
    }

    #[inline]
    fn is_ascii_lowercase_2(&self) -> bool {
        scalar::is_ascii_lowercase(*self as u32)
    }

    #[inline]
    fn is_ascii_punctuation_2(&self) -> bool {
        scalar::is_ascii_punctuation(*self as u32)
    }

    #[inline]
    fn is_ascii_uppercase_2(&self) -> bool {
        scalar::is_ascii_uppercase(*self as u32)
    }

    #[inline]
    fn is_ascii_whitespace_2(&self) -> bool {
        scalar::is_ascii_whitespace(*self as u32)
    }
}

impl IsAscii2 for char {
    open spec fn codepoint(&self) -> u32 {
        *self as u32
    }

    #[inline]
    fn is_ascii_2(&self) -> bool {
        scalar::is_ascii(*self as u32)
    }

    #[inline]
    fn is_ascii_alphabetic_2(&self) -> bool {
        scalar::is_ascii_alphabetic(*self as u32)
    }

    #[inline]
    fn is_ascii_alphanumeric_2(&self) -> bool {
        scalar::is_ascii_alphanumeric(*self as u32)
    }

    #[inline]
    fn is_ascii_control_2(&self) -> bool {
        scalar::is_ascii_control(*self as u32)
    }

    #[inline]
    fn is_ascii_digit_2(&self) -> bool {
        scalar::is_ascii_digit(*self as u32)
    }

    #[inline]
    fn is_ascii_graphic_2(&self) -> bool {
        scalar::is_ascii_graphic(*self as u32)
    }

    #[inline]
    fn is_ascii_hexdigit_2(&self) -> bool {
        scalar::is_ascii_hexdigit(*self as u32)
    }

    #[inline]
    fn is_ascii_lowercase_2(&self) -> bool {
        scalar::is_ascii_lowercase(*self as u32)
    }

    #[inline]
    fn is_ascii_punctuation_2(&self) -> bool {
        scalar::is_ascii_punctuation(*self as u32)
    }

    #[inline]
    fn is_ascii_uppercase_2(&self) -> bool {
        scalar::is_ascii_uppercase(*self as u32)
    }

    #[inline]
    fn is_ascii_whitespace_2(&self) -> bool {
        scalar::is_ascii_whitespace(*self as u32)
    }
}

} // verus!
