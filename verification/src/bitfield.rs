//! Bit-field engine: read or replace an inclusive run of bits inside a
//! 16-bit machine word.
//!
//! Bit positions are counted from the least-significant bit (position 0) to
//! the most-significant bit (position 15). A [`BitRange`] selects the
//! positions `start..=end`; both endpoints are included.

use vstd::prelude::*;

verus! {

/// Number of bits in a machine word of the processor.
pub const WORD_BITS: u16 = 16;

/// An inclusive range of bit positions inside a 16-bit word, counted from the
/// least-significant bit.
#[derive(Clone, Copy, Debug, PartialEq, Eq, Structural)]
pub struct BitRange {
    /// Position of the lowest selected bit.
    pub start: u16,
    /// Position of the highest selected bit (included).
    pub end: u16,
}

/// Number of bits selected by the positions `s..=e`.
pub open spec fn span_width(s: u16, e: u16) -> u32 {
    (e - s + 1) as u32
}

/// A word whose `w` low-order bits are ones and whose other bits are zeros.
pub open spec fn low_ones(w: u32) -> u32
    recommends
        w <= 16,
{
    ((1u32 << w) - 1) as u32
}

/// The field of `v` at positions `s..=e`, shifted down to the low-order
/// position and masked to the field's width.
pub open spec fn extract_bits(v: u16, s: u16, e: u16) -> u16
    recommends
        s <= e < 16,
{
    ((((v as u32) >> (s as u32)) & low_ones(span_width(s, e))) as u16)
}

/// `v` with the field at positions `s..=e` cleared and then ored with `b`
/// shifted up into that position. Bits of `b` wider than the field spill into
/// the adjacent higher-order positions (and are cut off at position 15).
pub open spec fn replace_bits(v: u16, b: u16, s: u16, e: u16) -> u16
    recommends
        s <= e < 16,
{
    ((((b as u32) << (s as u32)) | ((v as u32) & !(low_ones(span_width(s, e)) << (s as u32))))
        as u16)
}

/// Whether bit `i` of `v` is set.
pub open spec fn word_bit(v: u16, i: u16) -> bool
    recommends
        i < 16,
{
    (v >> i) & 1 == 1
}

impl BitRange {
    /// A range is well formed when it selects at least one bit and stays
    /// inside the 16-bit word.
    pub open spec fn wf(self) -> bool {
        self.start <= self.end && self.end < 16
    }

    /// Number of bits the range selects.
    pub open spec fn width(self) -> u32 {
        span_width(self.start, self.end)
    }

    /// The range selecting the positions `start..=end`.
    pub fn new(start: u16, end: u16) -> (r: BitRange)
        requires
            start <= end < 16,
        ensures
            r == (BitRange { start, end }),
    {
        BitRange { start, end }
    }

    /// The range covering the whole 16-bit word.
    pub fn full() -> (r: BitRange)
        ensures
            r == full_range(),
    {
        BitRange { start: 0, end: 15 }
    }

    /// The range from position `start` up to the top of the word, as written
    /// `start..` elsewhere: the open end defaults to position 15.
    pub fn from_start(start: u16) -> (r: BitRange)
        requires
            start < 16,
        ensures
            r == (BitRange { start, end: 15u16 }),
    {
        BitRange { start, end: 15 }
    }

    /// The range from the bottom of the word up to position `end`, as written
    /// `..=end` elsewhere: the open start defaults to position 0.
    pub fn up_to(end: u16) -> (r: BitRange)
        requires
            end < 16,
        ensures
            r == (BitRange { start: 0u16, end }),
    {
        BitRange { start: 0, end }
    }
}

/// The range covering the whole 16-bit word.
pub open spec fn full_range() -> BitRange {
    BitRange { start: 0, end: 15 }
}

/// The field of `v` selected by `r`, shifted down to the low-order position.
pub open spec fn spec_extract(v: u16, r: BitRange) -> u16
    recommends
        r.wf(),
{
    extract_bits(v, r.start, r.end)
}

/// `v` with the field selected by `r` replaced by `b`.
pub open spec fn spec_replace(v: u16, b: u16, r: BitRange) -> u16
    recommends
        r.wf(),
{
    replace_bits(v, b, r.start, r.end)
}

/// Returns the bits of `v` at the positions selected by `r`, shifted down so
/// that the lowest selected bit lands at position 0. Counting starts at the
/// low bit: `bits(0b101000, 3..=5)` is `0b101`.
///
/// A malformed range (start above end, or reaching past bit 15) is a caller
/// error, excluded by the precondition rather than reported at run time.
pub fn bits(v: u16, r: BitRange) -> (b: u16)
    requires
        r.wf(),
    ensures
        b == spec_extract(v, r),
        (b as u32) < (1u32 << r.width()),
{
    let w: u32 = ((r.end - r.start) as u32) + 1;
    proof {
        let s: u16 = r.start;
        assert(1u32 << w >= 1 && ((((v as u32) >> (s as u32)) & (((1u32 << w) - 1) as u32))
            as u16 as u32) < (1u32 << w)) by (bit_vector)
            requires
                w <= 16,
        ;
    }
    let mask: u32 = (1u32 << w) - 1;
    let shifted: u32 = (v as u32) >> (r.start as u32);
    ((shifted & mask) as u16)
}

/// Returns `v` with the bits at the positions selected by `r` replaced by
/// `b`, which is shifted up into position: `set_bits(0b101000, 0b11, 1..=2)`
/// is `0b101110`.
///
/// `b` is expected to fit within the range's width. It is not masked: wider
/// input bits spill into the adjacent higher-order positions, cut off at bit
/// 15. The contract records this spill exactly rather than hiding it.
pub fn set_bits(v: u16, b: u16, r: BitRange) -> (n: u16)
    requires
        r.wf(),
    ensures
        n == spec_replace(v, b, r),
{
    let w: u32 = ((r.end - r.start) as u32) + 1;
    proof {
        assert(1u32 << w >= 1) by (bit_vector)
            requires
                w <= 16,
        ;
    }
    let mask: u32 = (1u32 << w) - 1;
    let cleared: u32 = (v as u32) & !(mask << (r.start as u32));
    let placed: u32 = (b as u32) << (r.start as u32);
    ((placed | cleared) as u16)
}

/// An extracted field never exceeds the bit-width of its range: the result of
/// extraction is below two to the power of the range's width.
pub proof fn lemma_extract_fits(v: u16, r: BitRange)
    requires
        r.wf(),
    ensures
        (spec_extract(v, r) as u32) < (1u32 << r.width()),
{
    let s: u16 = r.start;
    let e: u16 = r.end;
    assert((extract_bits(v, s, e) as u32) < (1u32 << span_width(s, e))) by (bit_vector)
        requires
            s <= e < 16,
    ;
}

/// Extraction over the whole word is the identity.
pub proof fn lemma_extract_full(v: u16)
    ensures
        spec_extract(v, full_range()) == v,
{
    assert(extract_bits(v, 0, 15) == v) by (bit_vector);
}

/// Round trip: writing a field value that already fits within the range's
/// width and reading it back yields that value unchanged.
pub proof fn lemma_replace_extract(v: u16, b: u16, r: BitRange)
    requires
        r.wf(),
        (b as u32) < (1u32 << r.width()),
    ensures
        spec_extract(spec_replace(v, b, r), r) == b,
{
    let s: u16 = r.start;
    let e: u16 = r.end;
    assert(extract_bits(replace_bits(v, b, s, e), s, e) == b) by (bit_vector)
        requires
            s <= e < 16,
            (b as u32) < (1u32 << span_width(s, e)),
    ;
}

/// Replacement touches only the selected field: every bit position outside
/// the range keeps the value it had before the replacement, provided the new
/// field value fits within the range's width.
pub proof fn lemma_replace_preserves_outside(v: u16, b: u16, r: BitRange, i: u16)
    requires
        r.wf(),
        (b as u32) < (1u32 << r.width()),
        i < 16,
        i < r.start || r.end < i,
    ensures
        word_bit(spec_replace(v, b, r), i) == word_bit(v, i),
{
    let s: u16 = r.start;
    let e: u16 = r.end;
    assert(word_bit(replace_bits(v, b, s, e), i) == word_bit(v, i)) by (bit_vector)
        requires
            s <= e < 16,
            (b as u32) < (1u32 << span_width(s, e)),
            i < 16,
            i < s || e < i,
    ;
}

} // verus!
