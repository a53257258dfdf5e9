//! The strip-lookup primitive.
//!
//! A "strip" is a contiguous run of matching codepoints confined to one
//! 32-codepoint chunk of the value space (codepoints 0 through 31, 32
//! through 63, and so on up to 224 through 255). A category whose matching
//! set places at most one strip in each chunk can be tested with two small
//! lookup tables indexed by the chunk number: the first matching codepoint
//! of the chunk's strip, and the strip's length (both 0 for a chunk with no
//! strip). The test subtracts the strip's start with wrapping semantics, so
//! a value below the start wraps to a large value and fails the length
//! comparison instead of trapping.

use vstd::prelude::*;

verus! {

/// The 32-codepoint chunk number of `x`: its low byte divided by 32. Only
/// the low byte matters, so the chunk number is always 0 through 7 and
/// indexes an 8-entry table safely.
pub open spec fn chunk_of(x: u32) -> u32 {
    (x & 0xff) >> 5
}

/// What the strip-lookup computes on `x` against a table pair: whether the
/// wrapping difference between `x` and the chunk's starting codepoint falls
/// below the chunk's strip length.
pub open spec fn strip_hit(x: u32, starts: Seq<u8>, lens: Seq<u8>) -> bool
    recommends
        starts.len() == 8,
        lens.len() == 8,
{
    let chunk = chunk_of(x) as int;
    vstd::wrapping::u32_specs::wrapping_sub(x, starts[chunk] as u32) < lens[chunk] as u32
}

/// The chunk number is in range, and it pins the low byte of `x` to one
/// 32-wide window of the value space.
pub proof fn lemma_chunk_of(x: u32)
    by (bit_vector)
    ensures
        chunk_of(x) < 8,
        32 * chunk_of(x) <= x % 256,
        x % 256 < 32 * chunk_of(x) + 32,
        x < 256 ==> x % 256 == x,
{
}

/// Tests whether `x` lies in the strip that its chunk assigns, per the
/// table pair: true iff `x` is in
/// `starts[chunk] .. starts[chunk] + lens[chunk]`, where values below the
/// strip's start wrap around and fail the comparison.
pub fn strip_of_each_chunk(x: u32, starts: &[u8; 8], lens: &[u8; 8]) -> (r: bool)
    ensures
        r == strip_hit(x, starts@, lens@),
{
    let chunk_number = ((x & 0xff) >> 5) as usize;
    proof {
        lemma_chunk_of(x);
    }
    // Slide the strip of this chunk down to start at zero; values below the
    // strip wrap to large values and fail the length check.
    let adjusted = x.wrapping_sub(starts[chunk_number] as u32);
    adjusted < lens[chunk_number] as u32
}

} // verus!
