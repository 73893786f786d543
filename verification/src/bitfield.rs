use vstd::prelude::*;

verus! {

/// The mask of the `width` low bits.
pub open spec fn field_mask(width: u32) -> u32 {
    ((1u32 << width) - 1u32) as u32
}

/// Whether a field of `width` bits at bit `offset` fits in a 32-bit word.
pub open spec fn field_fits(offset: u32, width: u32) -> bool {
    1 <= width < 32 && offset + width <= 32
}

/// The value of the `width`-bit field at bit `offset` of `value`.
pub open spec fn field_of(value: u32, offset: u32, width: u32) -> u32 {
    (value >> offset) & field_mask(width)
}

/// `value` with the `width`-bit field at bit `offset` replaced by the low bits of `v`.
pub open spec fn with_field(value: u32, offset: u32, width: u32, v: u32) -> u32 {
    (value & !(field_mask(width) << offset)) | ((v & field_mask(width)) << offset)
}

/// Reads the `width`-bit field at bit `offset` of `value`.
pub fn get_field(value: u32, offset: u32, width: u32) -> (r: u32)
    requires
        field_fits(offset, width),
    ensures
        r == field_of(value, offset, width),
        r < (1u32 << width),
{
    assert((1u32 << width) >= 1) by (bit_vector)
        requires width < 32;
    let mask: u32 = (1u32 << width) - 1;
    assert(mask < (1u32 << width)) by (bit_vector)
        requires mask == ((1u32 << width) - 1u32) as u32, 1 <= width < 32;
    let r = (value >> offset) & mask;
    assert(r <= mask) by (bit_vector)
        requires r == (value >> offset) & mask;
    r
}

/// Writes the low `width` bits of `v` into the field at bit `offset` of `value`.
pub fn set_field(value: u32, offset: u32, width: u32, v: u32) -> (r: u32)
    requires
        field_fits(offset, width),
    ensures
        r == with_field(value, offset, width, v),
{
    assert((1u32 << width) >= 1) by (bit_vector)
        requires width < 32;
    let mask: u32 = (1u32 << width) - 1;
    (value & !(mask << offset)) | ((v & mask) << offset)
}

/// Reading a field back after writing it gives the low bits of what was written,
/// and every bit outside the field keeps its value.
pub proof fn lemma_field_write_read(value: u32, offset: u32, width: u32, v: u32)
    requires
        field_fits(offset, width),
    ensures
        field_of(with_field(value, offset, width, v), offset, width) == v & field_mask(width),
        with_field(value, offset, width, v) & !(field_mask(width) << offset)
            == value & !(field_mask(width) << offset),
{
    let m = field_mask(width);
    assert(m == ((1u32 << width) - 1u32) as u32);
    assert((((value & !(m << offset)) | ((v & m) << offset)) >> offset) & m == v & m) by (bit_vector)
        requires m == ((1u32 << width) - 1u32) as u32, 1 <= width < 32, offset + width <= 32;
    assert(((value & !(m << offset)) | ((v & m) << offset)) & !(m << offset)
        == value & !(m << offset)) by (bit_vector)
        requires m == ((1u32 << width) - 1u32) as u32, 1 <= width < 32, offset + width <= 32;
}

/// Writing a field leaves every other field that does not overlap it unchanged.
pub proof fn lemma_field_write_other(value: u32, offset: u32, width: u32, v: u32, offset2: u32, width2: u32)
    requires
        field_fits(offset, width),
        field_fits(offset2, width2),
        offset2 + width2 <= offset || offset + width <= offset2,
    ensures
        field_of(with_field(value, offset, width, v), offset2, width2) == field_of(value, offset2, width2),
{
    let m = field_mask(width);
    let m2 = field_mask(width2);
    assert(m == ((1u32 << width) - 1u32) as u32);
    assert(m2 == ((1u32 << width2) - 1u32) as u32);
    assert((((value & !(m << offset)) | ((v & m) << offset)) >> offset2) & m2 == (value >> offset2) & m2)
        by (bit_vector)
        requires
            m == ((1u32 << width) - 1u32) as u32, 1 <= width < 32, offset + width <= 32,
            m2 == ((1u32 << width2) - 1u32) as u32, 1 <= width2 < 32, offset2 + width2 <= 32,
            offset2 + width2 <= offset || offset + width <= offset2;
}

} // verus!
