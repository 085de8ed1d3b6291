//! Properties that hold of the bit queries on every supported type, stated
//! over the models that the queries' contracts use.

use vstd::prelude::*;

verus! {

use vstd::arithmetic::power2::{pow2, lemma2_to64, lemma_pow2_strictly_increases};
use vstd::layout::size_of;

use crate::BitInformation;
use crate::model::{
    alternating_bits,
    has_bit,
    has_top_bit,
    lemma_alternating_bit,
    lemma_bit_of_mod,
    lemma_top_bit,
};

/// Each fixed-width type is exactly as wide as its name says, and the native
/// word types hold eight bits for each byte of the platform's word.
pub proof fn lemma_type_widths()
    ensures
        <u8 as BitInformation>::bit_width() == 8,
        <i8 as BitInformation>::bit_width() == 8,
        <u16 as BitInformation>::bit_width() == 16,
        <i16 as BitInformation>::bit_width() == 16,
        <u32 as BitInformation>::bit_width() == 32,
        <i32 as BitInformation>::bit_width() == 32,
        <u64 as BitInformation>::bit_width() == 64,
        <i64 as BitInformation>::bit_width() == 64,
        <usize as BitInformation>::bit_width() == 8 * size_of::<usize>(),
        <isize as BitInformation>::bit_width() == 8 * size_of::<isize>(),
{
    broadcast use vstd::layout::layout_of_primitives;

}

/// A value whose low `bit_width()` bits form the pattern `0b...1010` has
/// exactly its odd positions set, at every width.
pub proof fn lemma_alternating_pattern<T: BitInformation>(x: T, position: nat)
    requires
        x.value() % (pow2(T::bit_width()) as int) == alternating_bits(T::bit_width()),
    ensures
        has_bit(x.value(), T::bit_width(), position as int) == (position < T::bit_width()
            && position % 2 == 1),
{
    if position < T::bit_width() {
        lemma_alternating_bit(T::bit_width(), position);
        lemma_bit_of_mod(x.value(), T::bit_width(), position);
    }
}

/// The most significant bit is the sign bit: it is set exactly on the
/// negative values, and on the unsigned values of the upper half of the range.
pub proof fn lemma_top_bit_is_sign<T: BitInformation>(x: T)
    ensures
        has_top_bit(x.value(), T::bit_width()) == (x.value() < 0 || x.value() >= pow2(
            (T::bit_width() - 1) as nat,
        )),
{
    x.lemma_representable();
    lemma_top_bit(x.value(), T::bit_width());
}

/// The value one never has its most significant bit set, at any width.
pub proof fn lemma_one_lacks_top_bit<T: BitInformation>(x: T)
    requires
        x.value() == 1,
    ensures
        !has_top_bit(x.value(), T::bit_width()),
{
    x.lemma_representable();
    lemma_top_bit_is_sign(x);
    lemma_pow2_strictly_increases(0, (T::bit_width() - 1) as nat);
    lemma2_to64();
}

/// Two values whose low `low` bits agree answer every query below `low`
/// alike, whatever the widths of their types: a value and its widening (by
/// zero or by sign extension) agree on every bit of the narrower type.
pub proof fn lemma_low_bits_agree<T: BitInformation, U: BitInformation>(
    x: T,
    y: U,
    low: nat,
    position: nat,
)
    requires
        low <= T::bit_width(),
        low <= U::bit_width(),
        position < low,
        x.value() % (pow2(low) as int) == y.value() % (pow2(low) as int),
    ensures
        has_bit(x.value(), T::bit_width(), position as int) == has_bit(
            y.value(),
            U::bit_width(),
            position as int,
        ),
{
    lemma_bit_of_mod(x.value(), low, position);
    lemma_bit_of_mod(y.value(), low, position);
}

/// The answers depend on the value and the position alone: no state is kept
/// between queries, so asking again gives the same answer.
pub proof fn lemma_answers_depend_on_value<T: BitInformation>(x: T, y: T, position: int)
    requires
        x.value() == y.value(),
    ensures
        has_bit(x.value(), T::bit_width(), position) == has_bit(
            y.value(),
            T::bit_width(),
            position,
        ),
        has_top_bit(x.value(), T::bit_width()) == has_top_bit(y.value(), T::bit_width()),
{
}

} // verus!
