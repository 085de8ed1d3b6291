//! Bit-level queries over the fixed-width integer types: how wide a type is,
//! whether a bit position is in range, and whether a given bit is set.

use vstd::prelude::*;

pub mod laws;
pub mod model;

verus! {

use vstd::arithmetic::power2::{pow2, lemma2_to64, lemma_pow2_unfold};

use crate::model::{
    has_bit,
    has_top_bit,
    in_bounds,
    lemma_i16_mask,
    lemma_i32_mask,
    lemma_i64_mask,
    lemma_i8_mask,
    lemma_isize_mask,
    lemma_u16_mask,
    lemma_u32_mask,
    lemma_u64_mask,
    lemma_u8_mask,
    lemma_usize_mask,
};

/// Bit queries on a fixed-width integer value.
///
/// A value is modelled by its mathematical integer (`value`) and the width of
/// its type (`bit_width`). Bit `p` is the `p`-th binary digit of the value in
/// two's complement, counted from the least significant digit.
pub trait BitInformation {
    /// The width in bits of the implementing type.
    spec fn bit_width() -> nat;

    /// The value as a mathematical integer.
    spec fn value(&self) -> int;

    /// Every supported type is between 8 and 64 bits wide, and each of its
    /// values is representable in that many bits: as a two's-complement
    /// integer or as an unsigned one.
    proof fn lemma_representable(&self)
        ensures
            8 <= Self::bit_width() <= 64,
            -(pow2((Self::bit_width() - 1) as nat) as int) <= self.value(),
            self.value() < pow2(Self::bit_width()),
    ;

    /// Gets the number of bits contained in this type. The answer depends on
    /// the type alone, never on the value.
    fn number_of_bits(&self) -> (r: usize)
        ensures
            r == Self::bit_width(),
    ;

    /// Checks to see if bit `position` is set, counting from the least
    /// significant bit at position 0. Signed values are read in two's
    /// complement.
    ///
    /// A position at or beyond the width holds no bit and answers `false`;
    /// this includes `position == number_of_bits()`, which
    /// `is_bit_in_bounds` still accepts.
    fn has_x_bit(&self, position: usize) -> (r: bool)
        ensures
            r == has_bit(self.value(), Self::bit_width(), position as int),
            position >= Self::bit_width() ==> !r,
    ;

    /// Checks to see if the requested bit position is in bounds.
    ///
    /// The bound is lenient: `position == number_of_bits()` is accepted too,
    /// although the last bit sits one below it.
    fn is_bit_in_bounds(&self, position: usize) -> (r: bool)
        ensures
            r == in_bounds(Self::bit_width(), position as int),
    {
        position <= self.number_of_bits()
    }

    /// Checks to see if the most signifigant bit is set: the bit at
    /// `number_of_bits() - 1`, which is the sign bit of a signed type.
    fn has_most_signifigant_bit(&self) -> (r: bool)
        ensures
            r == has_top_bit(self.value(), Self::bit_width()),
    {
        proof {
            self.lemma_representable();
        }
        let width = self.number_of_bits();
        self.has_x_bit(width - 1)
    }
}

impl BitInformation for u8 {
    open spec fn bit_width() -> nat {
        8
    }

    open spec fn value(&self) -> int {
        *self as int
    }

    proof fn lemma_representable(&self) {
        lemma2_to64();
        lemma_pow2_unfold(64);
    }

    fn number_of_bits(&self) -> (r: usize) {
        8
    }

    fn has_x_bit(&self, position: usize) -> (r: bool) {
        if position < 8 {
            proof {
                lemma_u8_mask(*self, position);
            }
            (*self & (1u8 << position)) != 0
        } else {
            false
        }
    }
}

impl BitInformation for i8 {
    open spec fn bit_width() -> nat {
        8
    }

    open spec fn value(&self) -> int {
        *self as int
    }

    proof fn lemma_representable(&self) {
        lemma2_to64();
        lemma_pow2_unfold(64);
    }

    fn number_of_bits(&self) -> (r: usize) {
        8
    }

    fn has_x_bit(&self, position: usize) -> (r: bool) {
        if position < 8 {
            proof {
                lemma_i8_mask(*self, position);
            }
            (*self & (1i8 << position)) != 0
        } else {
            false
        }
    }
}

impl BitInformation for u16 {
    open spec fn bit_width() -> nat {
        16
    }

    open spec fn value(&self) -> int {
        *self as int
    }

    proof fn lemma_representable(&self) {
        lemma2_to64();
        lemma_pow2_unfold(64);
    }

    fn number_of_bits(&self) -> (r: usize) {
        16
    }

    fn has_x_bit(&self, position: usize) -> (r: bool) {
        if position < 16 {
            proof {
                lemma_u16_mask(*self, position);
            }
            (*self & (1u16 << position)) != 0
        } else {
            false
        }
    }
}

impl BitInformation for i16 {
    open spec fn bit_width() -> nat {
        16
    }

    open spec fn value(&self) -> int {
        *self as int
    }

    proof fn lemma_representable(&self) {
        lemma2_to64();
        lemma_pow2_unfold(64);
    }

    fn number_of_bits(&self) -> (r: usize) {
        16
    }

    fn has_x_bit(&self, position: usize) -> (r: bool) {
        if position < 16 {
            proof {
                lemma_i16_mask(*self, position);
            }
            (*self & (1i16 << position)) != 0
        } else {
            false
        }
    }
}

impl BitInformation for u32 {
    open spec fn bit_width() -> nat {
        32
    }

    open spec fn value(&self) -> int {
        *self as int
    }

    proof fn lemma_representable(&self) {
        lemma2_to64();
        lemma_pow2_unfold(64);
    }

    fn number_of_bits(&self) -> (r: usize) {
        32
    }

    fn has_x_bit(&self, position: usize) -> (r: bool) {
        if position < 32 {
            proof {
                lemma_u32_mask(*self, position);
            }
            (*self & (1u32 << position)) != 0
        } else {
            false
        }
    }
}

impl BitInformation for i32 {
    open spec fn bit_width() -> nat {
        32
    }

    open spec fn value(&self) -> int {
        *self as int
    }

    proof fn lemma_representable(&self) {
        lemma2_to64();
        lemma_pow2_unfold(64);
    }

    fn number_of_bits(&self) -> (r: usize) {
        32
    }

    fn has_x_bit(&self, position: usize) -> (r: bool) {
        if position < 32 {
            proof {
                lemma_i32_mask(*self, position);
            }
            (*self & (1i32 << position)) != 0
        } else {
            false
        }
    }
}

impl BitInformation for u64 {
    open spec fn bit_width() -> nat {
        64
    }

    open spec fn value(&self) -> int {
        *self as int
    }

    proof fn lemma_representable(&self) {
        lemma2_to64();
        lemma_pow2_unfold(64);
    }

    fn number_of_bits(&self) -> (r: usize) {
        64
    }

    fn has_x_bit(&self, position: usize) -> (r: bool) {
        if position < 64 {
            proof {
                lemma_u64_mask(*self, position);
            }
            (*self & (1u64 << position)) != 0
        } else {
            false
        }
    }
}

impl BitInformation for i64 {
    open spec fn bit_width() -> nat {
        64
    }

    open spec fn value(&self) -> int {
        *self as int
    }

    proof fn lemma_representable(&self) {
        lemma2_to64();
        lemma_pow2_unfold(64);
    }

    fn number_of_bits(&self) -> (r: usize) {
        64
    }

    fn has_x_bit(&self, position: usize) -> (r: bool) {
        if position < 64 {
            proof {
                lemma_i64_mask(*self, position);
            }
            (*self & (1i64 << position)) != 0
        } else {
            false
        }
    }
}

impl BitInformation for usize {
    open spec fn bit_width() -> nat {
        usize::BITS as nat
    }

    open spec fn value(&self) -> int {
        *self as int
    }

    proof fn lemma_representable(&self) {
        lemma2_to64();
        lemma_pow2_unfold(64);
    }

    /// The width of the native word, as the platform defines it.
    fn number_of_bits(&self) -> (r: usize) {
        usize::BITS as usize
    }

    fn has_x_bit(&self, position: usize) -> (r: bool) {
        if position < usize::BITS as usize {
            proof {
                lemma_usize_mask(*self, position);
            }
            (*self & (1usize << position)) != 0
        } else {
            false
        }
    }
}

impl BitInformation for isize {
    open spec fn bit_width() -> nat {
        usize::BITS as nat
    }

    open spec fn value(&self) -> int {
        *self as int
    }

    proof fn lemma_representable(&self) {
        lemma2_to64();
        lemma_pow2_unfold(64);
    }

    /// The width of the native word, as the platform defines it.
    fn number_of_bits(&self) -> (r: usize) {
        usize::BITS as usize
    }

    fn has_x_bit(&self, position: usize) -> (r: bool) {
        if position < usize::BITS as usize {
            proof {
                lemma_isize_mask(*self, position);
            }
            (*self & (1isize << position)) != 0
        } else {
            false
        }
    }
}

} // verus!
