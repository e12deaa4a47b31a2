//! Fields of a 16-bit register word: a field is `width` adjacent bits that
//! start `offset` bits above the least significant one.

use vstd::prelude::*;

verus! {

/// The word whose lowest `width` bits are one and whose other bits are zero.
pub open spec fn low_ones(width: u16) -> u16 {
    if width >= 16 {
        0xffff
    } else {
        ((1u16 << width) - 1) as u16
    }
}

/// The word whose bits `offset .. offset + width` are one and whose other
/// bits are zero.
pub open spec fn field_mask(offset: u16, width: u16) -> u16 {
    low_ones(width) << offset
}

/// The value held by the field of `word` at `offset`, moved down to bit 0.
pub open spec fn extract_field(word: u16, offset: u16, width: u16) -> u16 {
    (word & field_mask(offset, width)) >> offset
}

/// `word` with the field at `offset` replaced by the low `width` bits of
/// `value`.
pub open spec fn splice_field(word: u16, offset: u16, width: u16, value: u16) -> u16 {
    (word & !field_mask(offset, width)) | ((value << offset) & field_mask(offset, width))
}

/// One more low bit: shifting the mask of `i` low bits up by one and adding
/// one gives the mask of `i + 1` low bits, within the word.
proof fn lemma_low_ones_step(mask: u16, i: u16)
    by (bit_vector)
    requires
        i < 16,
        mask == low_ones(i),
    ensures
        (mask << 1) + 1 <= 0xffff,
        (((mask << 1) + 1) as u16) == low_ones((i + 1) as u16),
{
}

/// Builds the mask of the field of `length` bits above `trailing_zeros`
/// lower bits.
pub fn create_mask(trailing_zeros: u16, length: u16) -> (mask: u16)
    requires
        trailing_zeros + length <= 16,
    ensures
        mask == field_mask(trailing_zeros, length),
{
    let mut mask: u16 = 0;
    assert(0u16 == low_ones(0)) by (bit_vector);
    for i in 0..length
        invariant
            length <= 16,
            mask == low_ones(i),
    {
        proof {
            lemma_low_ones_step(mask, i);
        }
        mask = (mask << 1) + 1;
    }
    if trailing_zeros < 16 {
        mask << trailing_zeros
    } else {
        assert(0u16 << 16u16 == 0u16) by (bit_vector);
        0
    }
}

/// Reads the field of `length` bits at `trailing_zeros` out of `state`.
pub fn clip_u16(state: u16, trailing_zeros: u16, length: u16) -> (value: u16)
    requires
        trailing_zeros + length <= 16,
    ensures
        value == extract_field(state, trailing_zeros, length),
{
    let mask = create_mask(trailing_zeros, length);
    if trailing_zeros < 16 {
        (state & mask) >> trailing_zeros
    } else {
        assert((state & (0u16 << 16u16)) >> 16u16 == 0u16) by (bit_vector);
        assert(low_ones(0) == 0u16) by (bit_vector);
        0
    }
}

/// Writes the low `length` bits of `value` into the field at
/// `trailing_zeros` of `state` and leaves the other bits as they are.
pub fn insert_u16(state: u16, trailing_zeros: u16, length: u16, value: u16) -> (word: u16)
    requires
        trailing_zeros + length <= 16,
    ensures
        word == splice_field(state, trailing_zeros, length, value),
{
    let mask = create_mask(trailing_zeros, length);
    if trailing_zeros < 16 {
        (state & !mask) | ((value << trailing_zeros) & mask)
    } else {
        assert((state & !(0u16 << 16u16)) | ((value << 16u16) & (0u16 << 16u16)) == state)
            by (bit_vector);
        assert(low_ones(0) == 0u16) by (bit_vector);
        state
    }
}

/// The mask of a field has exactly the bits of the field set: bit `bit` of
/// it is one when `offset <= bit < offset + width` and zero otherwise.
pub proof fn lemma_field_mask_bits(offset: u16, width: u16, bit: u16)
    by (bit_vector)
    requires
        offset + width <= 16,
        bit < 16,
    ensures
        (field_mask(offset, width) >> bit) & 1 == if offset <= bit < offset + width {
            1u16
        } else {
            0u16
        },
{
}

/// What is read out of a field fits in the width of the field.
pub proof fn lemma_extract_fits(word: u16, offset: u16, width: u16)
    by (bit_vector)
    requires
        offset + width <= 16,
    ensures
        extract_field(word, offset, width) <= low_ones(width),
        width < 16 ==> extract_field(word, offset, width) < (1u16 << width),
{
}

/// A field that was spliced in is read back: extracting the field just
/// written gives the low `width` bits of the value, and the value itself
/// when it fits in `width` bits.
pub proof fn lemma_extract_after_splice(word: u16, offset: u16, width: u16, value: u16)
    by (bit_vector)
    requires
        offset + width <= 16,
    ensures
        extract_field(splice_field(word, offset, width, value), offset, width) == value & low_ones(
            width,
        ),
        value <= low_ones(width) ==> extract_field(
            splice_field(word, offset, width, value),
            offset,
            width,
        ) == value,
{
}

/// Splicing a field changes no bit outside of it.
pub proof fn lemma_splice_keeps_other_bits(word: u16, offset: u16, width: u16, value: u16)
    by (bit_vector)
    ensures
        splice_field(word, offset, width, value) & !field_mask(offset, width) == word & !field_mask(
            offset,
            width,
        ),
{
}

/// Splicing a field changes no other field: a field that does not overlap
/// the one spliced reads as before.
pub proof fn lemma_splice_keeps_other_fields(
    word: u16,
    offset: u16,
    width: u16,
    value: u16,
    other_offset: u16,
    other_width: u16,
)
    by (bit_vector)
    requires
        offset + width <= 16,
        other_offset + other_width <= 16,
        offset + width <= other_offset || other_offset + other_width <= offset,
    ensures
        extract_field(splice_field(word, offset, width, value), other_offset, other_width)
            == extract_field(word, other_offset, other_width),
{
}

} // verus!
