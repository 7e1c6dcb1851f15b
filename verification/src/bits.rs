//! Bit-field primitives on a single register byte.
//!
//! Bit `0` is the least significant bit. A field is described by the
//! position of its lowest bit (`start`) and its width in bits (`len`),
//! with `start + len <= 8`.

use vstd::prelude::*;

verus! {

/// A byte whose low `len` bits are set and whose other bits are clear.
pub open spec fn spec_low_mask(len: u8) -> u8 {
    (((1u16 << len) - 1)) as u8
}

/// Bit `n` of `byte`, as `0` or `1`.
pub open spec fn spec_get_bit(byte: u8, n: u8) -> u8 {
    (byte >> n) & 1
}

/// `byte` with bit `n` set to `value` and every other bit unchanged.
pub open spec fn spec_set_bit(byte: u8, n: u8, value: bool) -> u8 {
    if value {
        byte | (1u8 << n)
    } else {
        byte & !(1u8 << n)
    }
}

/// The `len`-bit field of `byte` that starts at bit `start`,
/// right-aligned in the result.
pub open spec fn spec_get_bits(byte: u8, start: u8, len: u8) -> u8 {
    (byte >> start) & spec_low_mask(len)
}

/// `byte` with the low `len` bits of `value` written into the field that
/// starts at bit `start`, and every bit outside the field unchanged.
/// Bits of `value` above the field width are ignored.
pub open spec fn spec_set_bits(byte: u8, start: u8, len: u8, value: u8) -> u8 {
    (byte & !(spec_low_mask(len) << start)) | ((value & spec_low_mask(len)) << start)
}

/// Extract bit `n` (0 = LSB) of `byte`.
pub fn get_bit(byte: u8, n: u8) -> (r: u8)
    requires
        n < 8,
    ensures
        r == spec_get_bit(byte, n),
        r == 0 || r == 1,
{
    proof {
        assert((byte >> n) & 1 == 0 || (byte >> n) & 1 == 1) by (bit_vector);
    }
    (byte >> n) & 1
}

/// Set or clear bit `n` (0 = LSB) of `byte` in place.
pub fn set_bit(byte: &mut u8, n: u8, value: bool)
    requires
        n < 8,
    ensures
        *final(byte) == spec_set_bit(*old(byte), n, value),
{
    if value {
        *byte = *byte | (1u8 << n);
    } else {
        *byte = *byte & !(1u8 << n);
    }
}

/// Extract the `len`-bit field of `byte` starting at bit `start`,
/// right-aligned in the result.
pub fn get_bits(byte: u8, start: u8, len: u8) -> (r: u8)
    requires
        1 <= len,
        start + len <= 8,
    ensures
        r == spec_get_bits(byte, start, len),
        (r as u16) < (1u16 << len),
{
    proof {
        assert(1u16 <= (1u16 << len)) by (bit_vector)
            requires 1 <= len <= 8;
        assert(((((byte >> start) & ((((1u16 << len) - 1)) as u8))) as u16) < (1u16 << len))
            by (bit_vector)
            requires 1 <= len <= 8;
    }
    let mask: u8 = ((1u16 << len) - 1) as u8;
    (byte >> start) & mask
}

/// Write the low `len` bits of `value` into the field of `byte` starting
/// at bit `start`, preserving all bits outside the field. Bits of `value`
/// above the field width are masked off, not reported as an error.
pub fn set_bits(byte: &mut u8, start: u8, len: u8, value: u8)
    requires
        1 <= len,
        start + len <= 8,
    ensures
        *final(byte) == spec_set_bits(*old(byte), start, len, value),
{
    proof {
        assert(1u16 <= (1u16 << len)) by (bit_vector)
            requires 1 <= len <= 8;
    }
    let mask: u8 = ((1u16 << len) - 1) as u8;
    *byte = (*byte & !(mask << start)) | ((value & mask) << start);
}

/// Writing a bit and reading it back yields the written value, and every
/// other bit of the byte is unchanged.
pub proof fn lemma_set_get_bit(byte: u8, n: u8, value: bool)
    requires
        n < 8,
    ensures
        spec_get_bit(spec_set_bit(byte, n, value), n) == (if value { 1u8 } else { 0u8 }),
        forall|m: u8|
            m < 8 && m != n ==> spec_get_bit(spec_set_bit(byte, n, value), m) == spec_get_bit(
                byte,
                m,
            ),
{
    if value {
        assert(spec_get_bit(spec_set_bit(byte, n, true), n) == 1) by (bit_vector)
            requires n < 8;
        assert(forall|m: u8|
            m < 8 && m != n ==> spec_get_bit(spec_set_bit(byte, n, true), m) == spec_get_bit(
                byte,
                m,
            )) by (bit_vector)
            requires n < 8;
    } else {
        assert(spec_get_bit(spec_set_bit(byte, n, false), n) == 0) by (bit_vector)
            requires n < 8;
        assert(forall|m: u8|
            m < 8 && m != n ==> spec_get_bit(spec_set_bit(byte, n, false), m) == spec_get_bit(
                byte,
                m,
            )) by (bit_vector)
            requires n < 8;
    }
}

/// Writing a field and reading it back yields the written value whenever
/// the value fits in the field, and every bit outside the field is
/// unchanged.
pub proof fn lemma_set_get_bits(byte: u8, start: u8, len: u8, value: u8)
    requires
        1 <= len,
        start + len <= 8,
        (value as u16) < (1u16 << len),
    ensures
        spec_get_bits(spec_set_bits(byte, start, len, value), start, len) == value,
        forall|m: u8|
            m < 8 && !(start <= m < start + len) ==> spec_get_bit(
                spec_set_bits(byte, start, len, value),
                m,
            ) == spec_get_bit(byte, m),
{
    assert(spec_get_bits(spec_set_bits(byte, start, len, value), start, len) == value)
        by (bit_vector)
        requires
            1 <= len,
            start + len <= 8,
            (value as u16) < (1u16 << len),
    ;
    assert(forall|m: u8|
        m < 8 && !(start <= m < start + len) ==> spec_get_bit(
            spec_set_bits(byte, start, len, value),
            m,
        ) == spec_get_bit(byte, m)) by (bit_vector)
        requires
            1 <= len,
            start + len <= 8,
    ;
}

} // verus!
