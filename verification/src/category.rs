//! The eleven ASCII classification categories, each defined the conventional
//! way: as a union of inclusive codepoint ranges. These definitions are the
//! correctness oracle for the whole crate; every fast predicate is proved to
//! agree with them over its entire input domain.

use vstd::prelude::*;

verus! {

/// One of the eleven classification categories. Each category is a fixed
/// partition rule over the codepoint space; no category is ever recomputed
/// at runtime.
#[derive(Clone, Copy, PartialEq, Eq, Structural, Debug)]
pub enum Category {
    Ascii,
    Alphabetic,
    Alphanumeric,
    Control,
    Digit,
    Graphic,
    HexDigit,
    Lowercase,
    Punctuation,
    Uppercase,
    Whitespace,
}

/// `x` is an ASCII codepoint: 0 through 127.
pub open spec fn ascii(x: u32) -> bool {
    x < 128
}

/// `x` is an ASCII letter: `'A'` through `'Z'` or `'a'` through `'z'`.
pub open spec fn alphabetic(x: u32) -> bool {
    (65 <= x && x <= 90) || (97 <= x && x <= 122)
}

/// `x` is an ASCII letter or a decimal digit.
pub open spec fn alphanumeric(x: u32) -> bool {
    digit(x) || alphabetic(x)
}

/// `x` is an ASCII control codepoint: 0 through 31, or 127 (delete).
pub open spec fn control(x: u32) -> bool {
    x < 32 || x == 127
}

/// `x` is a decimal digit: `'0'` through `'9'`.
pub open spec fn digit(x: u32) -> bool {
    48 <= x && x <= 57
}

/// `x` is an ASCII graphic codepoint: `'!'` through `'~'`.
pub open spec fn graphic(x: u32) -> bool {
    33 <= x && x <= 126
}

/// `x` is a hexadecimal digit: a decimal digit, `'A'` through `'F'`, or
/// `'a'` through `'f'`.
pub open spec fn hexdigit(x: u32) -> bool {
    digit(x) || (65 <= x && x <= 70) || (97 <= x && x <= 102)
}

/// `x` is an ASCII lowercase letter: `'a'` through `'z'`.
pub open spec fn lowercase(x: u32) -> bool {
    97 <= x && x <= 122
}

/// `x` is ASCII punctuation: `'!'` through `'/'`, `':'` through `'@'`,
/// `'['` through `` '`' ``, or `'{'` through `'~'`.
pub open spec fn punctuation(x: u32) -> bool {
    (33 <= x && x <= 47) || (58 <= x && x <= 64) || (91 <= x && x <= 96)
        || (123 <= x && x <= 126)
}

/// `x` is an ASCII uppercase letter: `'A'` through `'Z'`.
pub open spec fn uppercase(x: u32) -> bool {
    65 <= x && x <= 90
}

/// `x` is ASCII whitespace: horizontal tab, line feed, vertical tab,
/// form feed, carriage return, or space.
pub open spec fn whitespace(x: u32) -> bool {
    x == 9 || x == 10 || x == 11 || x == 12 || x == 13 || x == 32
}

/// Whether codepoint `x` belongs to category `cat`, by the conventional
/// range-union definitions above.
pub open spec fn in_category(cat: Category, x: u32) -> bool {
    match cat {
        Category::Ascii => ascii(x),
        Category::Alphabetic => alphabetic(x),
        Category::Alphanumeric => alphanumeric(x),
        Category::Control => control(x),
        Category::Digit => digit(x),
        Category::Graphic => graphic(x),
        Category::HexDigit => hexdigit(x),
        Category::Lowercase => lowercase(x),
        Category::Punctuation => punctuation(x),
        Category::Uppercase => uppercase(x),
        Category::Whitespace => whitespace(x),
    }
}

/// Classification is deterministic: every predicate of this crate promises a
/// result equal to `in_category` of its input, a function of the input value
/// alone, so two results of the same predicate on the same input are always
/// equal. There is no hidden state that could make a repeated call differ.
pub proof fn lemma_classification_deterministic(cat: Category, x: u32, r1: bool, r2: bool)
    requires
        r1 == in_category(cat, x),
        r2 == in_category(cat, x),
    ensures
        r1 == r2,
{
}

} // verus!
