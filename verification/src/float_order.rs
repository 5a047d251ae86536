//! Ordering readings that arrive as `f32` by their bit patterns: a key that
//! compares as the numbers do, so that the logic that ranks them needs no
//! floating point.
use vstd::prelude::*;

verus! {

/// The bit pattern `b` of an `f32` is a NaN: all exponent bits set and a
/// non-zero fraction.
pub open spec fn f32_bits_nan(b: u32) -> bool {
    (b & 0x7f80_0000u32) == 0x7f80_0000u32 && (b & 0x007f_ffffu32) != 0
}

/// The magnitude bits of the pattern `b`: all but the sign.
pub open spec fn f32_bits_magnitude(b: u32) -> u32 {
    b & 0x7fff_ffffu32
}

/// The pattern `b` stands for a number below zero (a zero with the sign bit
/// set is no such number).
pub open spec fn f32_bits_negative(b: u32) -> bool {
    (b & 0x8000_0000u32) != 0 && f32_bits_magnitude(b) != 0
}

/// For two patterns that are no NaN, the number of `a` is below that of `b`,
/// as IEEE 754 orders them: by sign, then by magnitude, the larger magnitude
/// the larger number when positive and the smaller when negative.
pub open spec fn f32_bits_less(a: u32, b: u32) -> bool {
    if f32_bits_negative(a) {
        !f32_bits_negative(b) || f32_bits_magnitude(b) < f32_bits_magnitude(a)
    } else {
        !f32_bits_negative(b) && f32_bits_magnitude(a) < f32_bits_magnitude(b)
    }
}

/// For two patterns that are no NaN, they stand for the same number: both are
/// zeros, or they are the same pattern.
pub open spec fn f32_bits_same(a: u32, b: u32) -> bool {
    (f32_bits_magnitude(a) == 0 && f32_bits_magnitude(b) == 0) || a == b
}

/// The ordering key of the pattern `b`: negative numbers below the midpoint,
/// by falling magnitude; the rest from the midpoint up, by magnitude.
pub open spec fn f32_order_key(b: u32) -> u64 {
    if f32_bits_negative(b) {
        (0x7fff_ffff - f32_bits_magnitude(b)) as u64
    } else {
        (0x8000_0000 + f32_bits_magnitude(b)) as u64
    }
}

/// The ordering key of the `f32` whose bit pattern is `bits`, or `None` for a
/// NaN, which orders with nothing.
pub fn float_order_key(bits: u32) -> (r: Option<u64>)
    ensures
        r == (if f32_bits_nan(bits) {
            None
        } else {
            Some(f32_order_key(bits))
        }),
{
    if (bits & 0x7f80_0000u32) == 0x7f80_0000u32 && (bits & 0x007f_ffffu32) != 0 {
        return None;
    }
    let magnitude: u32 = bits & 0x7fff_ffffu32;
    assert(magnitude <= 0x7fff_ffffu32) by (bit_vector)
        requires
            magnitude == bits & 0x7fff_ffffu32,
    ;
    if (bits & 0x8000_0000u32) != 0 && magnitude != 0 {
        Some((0x7fff_ffffu32 - magnitude) as u64)
    } else {
        Some(0x8000_0000u64 + magnitude as u64)
    }
}

/// Keys compare as the numbers do: of two patterns that are no NaN, the key
/// of the first is below that of the second exactly when its number is, and
/// the keys are equal exactly when the numbers are.
pub proof fn lemma_order_key_follows_number_order(a: u32, b: u32)
    requires
        !f32_bits_nan(a),
        !f32_bits_nan(b),
    ensures
        f32_order_key(a) < f32_order_key(b) <==> f32_bits_less(a, b),
        f32_order_key(a) == f32_order_key(b) <==> f32_bits_same(a, b),
{
    let ma = f32_bits_magnitude(a);
    let mb = f32_bits_magnitude(b);
    assert(ma <= 0x7fff_ffffu32) by (bit_vector)
        requires
            ma == a & 0x7fff_ffffu32,
    ;
    assert(mb <= 0x7fff_ffffu32) by (bit_vector)
        requires
            mb == b & 0x7fff_ffffu32,
    ;
    assert((a & 0x8000_0000u32) == 0 ==> a == ma) by (bit_vector)
        requires
            ma == a & 0x7fff_ffffu32,
    ;
    assert((b & 0x8000_0000u32) == 0 ==> b == mb) by (bit_vector)
        requires
            mb == b & 0x7fff_ffffu32,
    ;
    assert(((a & 0x8000_0000u32) != 0 && (b & 0x8000_0000u32) != 0 && ma == mb) ==> a == b)
        by (bit_vector)
        requires
            ma == a & 0x7fff_ffffu32,
            mb == b & 0x7fff_ffffu32,
    ;
}

/// The bit pattern of the `f32` whose ordering key is `key`: the number a
/// key stands for (a zero comes back as the positive zero).
pub open spec fn f32_bits_of_key(key: u64) -> u32 {
    if key < 0x8000_0000 {
        (0x8000_0000 + (0x7fff_ffff - key)) as u32
    } else {
        (key - 0x8000_0000) as u32
    }
}

/// The bit pattern of the number whose ordering key is `key`, for a key that
/// `float_order_key` can give.
pub fn float_bits_of_key(key: u64) -> (r: u32)
    requires
        key <= 0xffff_ffff,
    ensures
        r == f32_bits_of_key(key),
{
    if key < 0x8000_0000 {
        (0x8000_0000u64 + (0x7fff_ffffu64 - key)) as u32
    } else {
        (key - 0x8000_0000u64) as u32
    }
}

/// A key gives back its number: the pattern recovered from the key of `b`
/// has the same key, and is `b` itself unless `b` is the negative zero.
pub proof fn lemma_key_round_trip(b: u32)
    requires
        !f32_bits_nan(b),
    ensures
        f32_order_key(b) <= 0xffff_ffff,
        f32_order_key(f32_bits_of_key(f32_order_key(b))) == f32_order_key(b),
        f32_bits_same(f32_bits_of_key(f32_order_key(b)), b),
{
    let m = f32_bits_magnitude(b);
    assert(m <= 0x7fff_ffffu32) by (bit_vector)
        requires
            m == b & 0x7fff_ffffu32,
    ;
    let k = f32_order_key(b);
    let c = f32_bits_of_key(k);
    if f32_bits_negative(b) {
        assert(c == 0x8000_0000u32 + m);
        assert(c & 0x7fff_ffffu32 == m && c & 0x8000_0000u32 != 0) by (bit_vector)
            requires
                c == 0x8000_0000u32 + m,
                m <= 0x7fff_ffffu32,
        ;
        assert((b & 0x8000_0000u32) != 0 && m == b & 0x7fff_ffffu32 ==> b == 0x8000_0000u32 + m)
            by (bit_vector);
    } else {
        assert(c == m);
        assert(c & 0x7fff_ffffu32 == c) by (bit_vector)
            requires
                c <= 0x7fff_ffffu32,
        ;
        assert(c & 0x8000_0000u32 == 0) by (bit_vector)
            requires
                c <= 0x7fff_ffffu32,
        ;
        assert((b & 0x8000_0000u32) == 0 && m == b & 0x7fff_ffffu32 ==> b == m) by (bit_vector);
    }
}

} // verus!
