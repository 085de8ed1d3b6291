//! The mathematical meaning of the bit queries, and the facts that connect
//! machine masks to it.

use vstd::prelude::*;

verus! {

use vstd::arithmetic::div_mod::{
    lemma_div_denominator,
    lemma_div_multiples_vanish_fancy,
    lemma_fundamental_div_mod,
    lemma_fundamental_div_mod_converse,
    lemma_hoist_over_denominator,
    lemma_mod_multiples_vanish,
};
use vstd::arithmetic::power2::{pow2, lemma2_to64, lemma_pow2_adds, lemma_pow2_pos, lemma_pow2_unfold};
use vstd::bits::{
    lemma_u8_shr_is_div,
    lemma_u16_shr_is_div,
    lemma_u32_shr_is_div,
    lemma_u64_shr_is_div,
    lemma_usize_shr_is_div,
};

/// Bit `position` of the two's-complement representation of `value`.
///
/// Division in specifications rounds toward negative infinity, so a negative
/// value has the infinite run of leading ones that sign extension gives it.
pub open spec fn bit_of(value: int, position: nat) -> bool {
    (value / (pow2(position) as int)) % 2 == 1
}

/// Whether `position` names a set bit of `value` held in `width` bits.
/// Positions at or beyond the width hold no bit.
pub open spec fn has_bit(value: int, width: nat, position: int) -> bool {
    0 <= position < width && bit_of(value, position as nat)
}

/// The lenient range check: every position up to and including `width`.
pub open spec fn in_bounds(width: nat, position: int) -> bool {
    0 <= position <= width
}

/// Whether the highest bit of a `width`-bit value is set.
pub open spec fn has_top_bit(value: int, width: nat) -> bool {
    bit_of(value, (width - 1) as nat)
}

/// The bits below `width` depend only on the value modulo `2^width`.
pub proof fn lemma_bit_of_mod(value: int, width: nat, position: nat)
    requires
        position < width,
    ensures
        bit_of(value, position) == bit_of(value % (pow2(width) as int), position),
{
    let a = pow2(position) as int;
    let c = pow2((width - position - 1) as nat) as int;
    let m = pow2(width) as int;
    lemma_pow2_pos(position);
    lemma_pow2_pos(width);
    lemma_pow2_pos((width - position - 1) as nat);
    lemma_pow2_unfold((width - position) as nat);
    lemma_pow2_adds(position, (width - position) as nat);
    assert(m == a * (2 * c));
    let q = value / m;
    let r = value % m;
    lemma_fundamental_div_mod(value, m);
    let j = 2 * (c * q);
    assert(m * q == j * a) by (nonlinear_arith)
        requires
            m == a * (2 * c),
            j == 2 * (c * q),
    ;
    lemma_hoist_over_denominator(r, j, a as nat);
    assert(value / a == r / a + j);
    lemma_mod_multiples_vanish(c * q, r / a, 2);
}

/// The `width`-bit pattern `0b...1010`: every odd position set, every even
/// position clear.
pub open spec fn alternating_bits(width: nat) -> int
    decreases width,
{
    if width < 2 {
        0
    } else {
        2 + 4 * alternating_bits((width - 2) as nat)
    }
}

/// Bit `position` of the alternating pattern is set exactly when `position`
/// is odd.
pub proof fn lemma_alternating_bit(width: nat, position: nat)
    requires
        position < width,
    ensures
        alternating_bits(width) >= 0,
        bit_of(alternating_bits(width), position) == (position % 2 == 1),
    decreases width,
{
    lemma2_to64();
    if width >= 2 {
        let rest = alternating_bits((width - 2) as nat);
        let v = alternating_bits(width);
        if position >= 2 {
            lemma_alternating_bit((width - 2) as nat, (position - 2) as nat);
            let d = pow2((position - 2) as nat) as int;
            lemma_pow2_pos((position - 2) as nat);
            lemma_pow2_adds(2, (position - 2) as nat);
            assert(2 + (position - 2) as nat == position);
            assert(pow2(position) == 4 * d);
            lemma_div_multiples_vanish_fancy(rest, 2, 4);
            assert(v / 4 == rest);
            lemma_div_denominator(v, 4, d);
            assert(v / (pow2(position) as int) == rest / d);
        } else {
            assert(rest >= 0) by {
                if width >= 3 {
                    lemma_alternating_bit((width - 2) as nat, 0);
                } else {
                    assert(rest == 0);
                }
            }
            if position == 0 {
                lemma_mod_multiples_vanish(1 + 2 * rest, 0, 2);
                assert(v / 1 == v);
            } else {
                lemma_div_multiples_vanish_fancy(1 + 2 * rest, 0, 2);
                lemma_mod_multiples_vanish(rest, 1, 2);
            }
        }
    }
}

/// For a value that fits in `width` bits, signed or unsigned, the top bit is
/// set exactly when the value is negative or at least `2^(width-1)`.
pub proof fn lemma_top_bit(value: int, width: nat)
    requires
        width >= 1,
        -(pow2((width - 1) as nat) as int) <= value < pow2(width),
    ensures
        has_top_bit(value, width) == (value < 0 || value >= pow2((width - 1) as nat)),
{
    let h = pow2((width - 1) as nat) as int;
    lemma_pow2_pos((width - 1) as nat);
    lemma_pow2_unfold(width);
    if value < 0 {
        lemma_fundamental_div_mod_converse(value, h, -1, value + h);
    } else if value < h {
        lemma_fundamental_div_mod_converse(value, h, 0, value);
    } else {
        lemma_fundamental_div_mod_converse(value, h, 1, value - h);
    }
}

/// Testing a one-bit mask on a `u8` reads bit `position` of its value.
pub proof fn lemma_u8_mask(x: u8, position: usize)
    requires
        position < 8,
    ensures
        ((x & (1u8 << position)) != 0) == bit_of(x as int, position as nat),
{
    let s = position as u8;
    assert(((x & (1u8 << position)) != 0) == (((x >> s) & 1u8) == 1u8)) by (bit_vector)
        requires
            position < 8,
            s == position,
    ;
    let y = x >> s;
    assert(((y & 1u8) == 1u8) == (y % 2 == 1)) by (bit_vector);
    lemma_u8_shr_is_div(x, s);
}

/// Testing a one-bit mask on a `u16` reads bit `position` of its value.
pub proof fn lemma_u16_mask(x: u16, position: usize)
    requires
        position < 16,
    ensures
        ((x & (1u16 << position)) != 0) == bit_of(x as int, position as nat),
{
    let s = position as u16;
    assert(((x & (1u16 << position)) != 0) == (((x >> s) & 1u16) == 1u16)) by (bit_vector)
        requires
            position < 16,
            s == position,
    ;
    let y = x >> s;
    assert(((y & 1u16) == 1u16) == (y % 2 == 1)) by (bit_vector);
    lemma_u16_shr_is_div(x, s);
}

/// Testing a one-bit mask on a `u32` reads bit `position` of its value.
pub proof fn lemma_u32_mask(x: u32, position: usize)
    requires
        position < 32,
    ensures
        ((x & (1u32 << position)) != 0) == bit_of(x as int, position as nat),
{
    let s = position as u32;
    assert(((x & (1u32 << position)) != 0) == (((x >> s) & 1u32) == 1u32)) by (bit_vector)
        requires
            position < 32,
            s == position,
    ;
    let y = x >> s;
    assert(((y & 1u32) == 1u32) == (y % 2 == 1)) by (bit_vector);
    lemma_u32_shr_is_div(x, s);
}

/// Testing a one-bit mask on a `u64` reads bit `position` of its value.
pub proof fn lemma_u64_mask(x: u64, position: usize)
    requires
        position < 64,
    ensures
        ((x & (1u64 << position)) != 0) == bit_of(x as int, position as nat),
{
    let s = position as u64;
    assert(((x & (1u64 << position)) != 0) == (((x >> s) & 1u64) == 1u64)) by (bit_vector)
        requires
            position < 64,
            s == position,
    ;
    let y = x >> s;
    assert(((y & 1u64) == 1u64) == (y % 2 == 1)) by (bit_vector);
    lemma_u64_shr_is_div(x, s);
}

/// Testing a one-bit mask on a `usize` reads bit `position` of its value.
pub proof fn lemma_usize_mask(x: usize, position: usize)
    requires
        position < usize::BITS,
    ensures
        ((x & (1usize << position)) != 0) == bit_of(x as int, position as nat),
{
    let s = position as usize;
    assert(((x & (1usize << position)) != 0) == (((x >> s) & 1usize) == 1usize)) by (bit_vector)
        requires
            position < usize::BITS,
            s == position,
    ;
    let y = x >> s;
    assert(((y & 1usize) == 1usize) == (y % 2 == 1)) by (bit_vector);
    lemma_usize_shr_is_div(x, s);
}

/// Testing a one-bit mask on an `i8` reads bit `position` of its
/// two's-complement representation.
pub proof fn lemma_i8_mask(x: i8, position: usize)
    requires
        position < 8,
    ensures
        ((x & (1i8 << position)) != 0) == bit_of(x as int, position as nat),
{
    let u = x as u8;
    assert(((x & (1i8 << position)) != 0) == ((u & (1u8 << position)) != 0)) by (bit_vector)
        requires
            position < 8,
            u == x as u8,
    ;
    lemma_u8_mask(u, position);
    assert(u as int == (x as int) % 256) by (bit_vector)
        requires
            u == x as u8,
    ;
    lemma2_to64();
    lemma_bit_of_mod(x as int, 8, position as nat);
}

/// Testing a one-bit mask on an `i16` reads bit `position` of its
/// two's-complement representation.
pub proof fn lemma_i16_mask(x: i16, position: usize)
    requires
        position < 16,
    ensures
        ((x & (1i16 << position)) != 0) == bit_of(x as int, position as nat),
{
    let u = x as u16;
    assert(((x & (1i16 << position)) != 0) == ((u & (1u16 << position)) != 0)) by (bit_vector)
        requires
            position < 16,
            u == x as u16,
    ;
    lemma_u16_mask(u, position);
    assert(u as int == (x as int) % 0x1_0000) by (bit_vector)
        requires
            u == x as u16,
    ;
    lemma2_to64();
    lemma_bit_of_mod(x as int, 16, position as nat);
}

/// Testing a one-bit mask on an `i32` reads bit `position` of its
/// two's-complement representation.
pub proof fn lemma_i32_mask(x: i32, position: usize)
    requires
        position < 32,
    ensures
        ((x & (1i32 << position)) != 0) == bit_of(x as int, position as nat),
{
    let u = x as u32;
    assert(((x & (1i32 << position)) != 0) == ((u & (1u32 << position)) != 0)) by (bit_vector)
        requires
            position < 32,
            u == x as u32,
    ;
    lemma_u32_mask(u, position);
    assert(u as int == (x as int) % 0x1_0000_0000) by (bit_vector)
        requires
            u == x as u32,
    ;
    lemma2_to64();
    lemma_bit_of_mod(x as int, 32, position as nat);
}

/// Testing a one-bit mask on an `i64` reads bit `position` of its
/// two's-complement representation.
pub proof fn lemma_i64_mask(x: i64, position: usize)
    requires
        position < 64,
    ensures
        ((x & (1i64 << position)) != 0) == bit_of(x as int, position as nat),
{
    let u = x as u64;
    assert(((x & (1i64 << position)) != 0) == ((u & (1u64 << position)) != 0)) by (bit_vector)
        requires
            position < 64,
            u == x as u64,
    ;
    lemma_u64_mask(u, position);
    assert(u as int == (x as int) % 0x1_0000_0000_0000_0000) by (bit_vector)
        requires
            u == x as u64,
    ;
    lemma2_to64();
    lemma_bit_of_mod(x as int, 64, position as nat);
}

/// Testing a one-bit mask on an `isize` reads bit `position` of its
/// two's-complement representation.
pub proof fn lemma_isize_mask(x: isize, position: usize)
    requires
        position < usize::BITS,
    ensures
        ((x & (1isize << position)) != 0) == bit_of(x as int, position as nat),
{
    let y = x as i64;
    assert(((x & (1isize << position)) != 0) == ((y & (1i64 << position)) != 0)) by (bit_vector)
        requires
            position < usize::BITS,
            y == x as i64,
    ;
    lemma_i64_mask(y, position);
}

} // verus!
