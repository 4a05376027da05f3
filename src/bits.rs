//! Bit fields that share a data byte.

use vstd::prelude::*;

verus! {

/// The field of `b` that starts at bit `shift`, kept by `mask`.
pub open spec fn spec_field(b: u8, shift: u8, mask: u8) -> u8 {
    (b >> shift) & mask
}

/// `b` with `v` placed from bit `shift` up.
pub open spec fn spec_put(b: u8, v: u8, shift: u8) -> u8 {
    b | (v << shift)
}

/// Reads the field of `b` that starts at bit `shift`, kept by `mask`.
pub fn field(b: u8, shift: u8, mask: u8) -> (r: u8)
    requires
        shift < 8,
    ensures
        r == spec_field(b, shift, mask),
        r <= mask,
{
    let r = (b >> shift) & mask;
    assert(r <= mask) by (bit_vector)
        requires
            r == (b >> shift) & mask,
    ;
    r
}

/// Places `v` into `b` from bit `shift` up.
pub fn put(b: u8, v: u8, shift: u8) -> (r: u8)
    requires
        shift < 8,
    ensures
        r == spec_put(b, v, shift),
{
    b | (v << shift)
}

/// The mask of the low `width` bits of a byte, for widths 1 to 7.
pub open spec fn low_mask(width: u8) -> u8 {
    if width == 1 {
        1
    } else if width == 2 {
        3
    } else if width == 3 {
        7
    } else if width == 4 {
        15
    } else if width == 5 {
        31
    } else if width == 6 {
        63
    } else {
        127
    }
}

/// The mask of the bits of a byte that lie above the low `width` bits,
/// moved down, for widths 1 to 7.
pub open spec fn high_mask(width: u8) -> u8 {
    if width == 1 {
        127
    } else if width == 2 {
        63
    } else if width == 3 {
        31
    } else if width == 4 {
        15
    } else if width == 5 {
        7
    } else if width == 6 {
        3
    } else {
        1
    }
}

/// A mask of the low bits of a byte.
pub open spec fn is_low_mask(m: u8) -> bool {
    m == 1 || m == 3 || m == 7 || m == 15 || m == 31 || m == 63 || m == 127
}

/// Two fields in one byte, `lo` in the low `width` bits and `hi` above it,
/// are each read back as they were put; `hi` is read through `hi_mask`, a
/// mask of low bits that leaves it whole and stays inside the byte.
pub proof fn lemma_two_fields(lo: u8, hi: u8, width: u8, hi_mask: u8)
    by (bit_vector)
    requires
        1 <= width <= 7,
        lo <= low_mask(width),
        hi <= hi_mask,
        hi_mask <= high_mask(width),
        is_low_mask(hi_mask),
    ensures
        spec_field(spec_put(lo, hi, width), 0, low_mask(width)) == lo,
        spec_field(spec_put(lo, hi, width), width, hi_mask) == hi,
{
}

} // verus!
