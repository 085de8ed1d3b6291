use bit_utils::BitInformation;

#[test]
fn widths_match_type_names() {
    assert_eq!(8, 0u8.number_of_bits());
    assert_eq!(8, 0i8.number_of_bits());
    assert_eq!(16, 0u16.number_of_bits());
    assert_eq!(16, 0i16.number_of_bits());
    assert_eq!(32, 0u32.number_of_bits());
    assert_eq!(32, 0i32.number_of_bits());
    assert_eq!(64, 0u64.number_of_bits());
    assert_eq!(64, 0i64.number_of_bits());
}

#[test]
fn native_width_is_eight_bits_per_byte() {
    let bytes = std::mem::size_of::<usize>();
    assert_eq!(8 * bytes, 0usize.number_of_bits());
    assert_eq!(8 * bytes, (-1isize).number_of_bits());
    assert_eq!(usize::BITS as usize, usize::MAX.number_of_bits());
}

#[test]
fn width_does_not_depend_on_value() {
    assert_eq!(0u16.number_of_bits(), u16::MAX.number_of_bits());
    assert_eq!(i32::MIN.number_of_bits(), i32::MAX.number_of_bits());
}

#[test]
fn every_position_below_width_is_in_bounds() {
    for p in 0..8 {
        assert!(0u8.is_bit_in_bounds(p));
        assert!(0i8.is_bit_in_bounds(p));
    }
    for p in 0..64 {
        assert!(7u64.is_bit_in_bounds(p));
        assert!((-7i64).is_bit_in_bounds(p));
    }
}

#[test]
fn bound_is_lenient_at_width() {
    assert!(3u8.is_bit_in_bounds(8));
    assert!(3i16.is_bit_in_bounds(16));
    assert!(3u32.is_bit_in_bounds(32));
    assert!(3i64.is_bit_in_bounds(64));
    let w = 0usize.number_of_bits();
    assert!(3usize.is_bit_in_bounds(w));
    assert!(!3usize.is_bit_in_bounds(w + 1));
    assert!(!3isize.is_bit_in_bounds(w + 1));
}

#[test]
fn positions_beyond_width_are_out_of_bounds() {
    assert!(!0u8.is_bit_in_bounds(9));
    assert!(!0u16.is_bit_in_bounds(17));
    assert!(!0i32.is_bit_in_bounds(33));
    assert!(!0u64.is_bit_in_bounds(65));
    assert!(!0u64.is_bit_in_bounds(usize::MAX));
}

#[test]
fn position_at_width_holds_no_bit() {
    assert!(!u8::MAX.has_x_bit(8));
    assert!(!(-1i8).has_x_bit(8));
    assert!(!u16::MAX.has_x_bit(16));
    assert!(!(-1i16).has_x_bit(16));
    assert!(!u32::MAX.has_x_bit(32));
    assert!(!(-1i32).has_x_bit(32));
    assert!(!u64::MAX.has_x_bit(64));
    assert!(!(-1i64).has_x_bit(64));
    let w = 0usize.number_of_bits();
    assert!(!usize::MAX.has_x_bit(w));
    assert!(!(-1isize).has_x_bit(w));
}

#[test]
fn positions_past_width_are_false() {
    for p in 9..200 {
        assert!(!u8::MAX.has_x_bit(p));
        assert!(!(-1i8).has_x_bit(p));
    }
    for p in 65..200 {
        assert!(!u64::MAX.has_x_bit(p));
        assert!(!(-1i64).has_x_bit(p));
    }
    assert!(!usize::MAX.has_x_bit(usize::MAX));
    assert!(!(-1isize).has_x_bit(usize::MAX));
}

#[test]
fn alternating_pattern_native_words() {
    let mut u: usize = 0;
    let mut i: isize = 0;
    let w = u.number_of_bits();
    for p in 0..w {
        if p % 2 == 1 {
            u |= 1usize << p;
            i |= 1isize << p;
        }
    }
    for k in 0..w {
        assert_eq!(k % 2 == 1, u.has_x_bit(k));
        assert_eq!(k % 2 == 1, i.has_x_bit(k));
    }
    assert!(u.has_most_signifigant_bit());
    assert!(i.has_most_signifigant_bit());
}

#[test]
fn all_ones_sets_every_bit() {
    for k in 0..32 {
        assert!((-1i32).has_x_bit(k));
        assert!(u32::MAX.has_x_bit(k));
    }
    for k in 0..8 {
        assert!(!0u8.has_x_bit(k));
        assert!(!0i8.has_x_bit(k));
    }
}

#[test]
fn single_bit_values() {
    assert!(0b0000_0100u8.has_x_bit(2));
    assert!(!0b0000_0100u8.has_x_bit(1));
    assert!(!0b0000_0100u8.has_x_bit(3));
    assert!((1u64 << 40).has_x_bit(40));
    assert!(!(1u64 << 40).has_x_bit(39));
    assert!(i16::MIN.has_x_bit(15));
    assert!(!i16::MIN.has_x_bit(14));
    assert!(!i16::MIN.has_x_bit(0));
}

#[test]
fn one_lacks_most_significant_bit_at_every_width() {
    assert!(!1u8.has_most_signifigant_bit());
    assert!(!1i8.has_most_signifigant_bit());
    assert!(!1u16.has_most_signifigant_bit());
    assert!(!1i16.has_most_signifigant_bit());
    assert!(!1u32.has_most_signifigant_bit());
    assert!(!1i32.has_most_signifigant_bit());
    assert!(!1u64.has_most_signifigant_bit());
    assert!(!1i64.has_most_signifigant_bit());
    assert!(!1usize.has_most_signifigant_bit());
    assert!(!1isize.has_most_signifigant_bit());
}

#[test]
fn most_significant_bit_is_sign_bit() {
    assert!((-1i8).has_most_signifigant_bit());
    assert!(!i8::MAX.has_most_signifigant_bit());
    assert!(i8::MIN.has_most_signifigant_bit());
    assert!((-1isize).has_most_signifigant_bit());
    assert!(!isize::MAX.has_most_signifigant_bit());
    assert!(!0i64.has_most_signifigant_bit());
}

#[test]
fn most_significant_bit_marks_upper_half_of_unsigned() {
    assert!(128u8.has_most_signifigant_bit());
    assert!(!127u8.has_most_signifigant_bit());
    assert!(0x8000u16.has_most_signifigant_bit());
    assert!(!0x7fffu16.has_most_signifigant_bit());
    assert!((1u64 << 63).has_most_signifigant_bit());
    assert!(!(u64::MAX >> 1).has_most_signifigant_bit());
    assert!(usize::MAX.has_most_signifigant_bit());
    assert!(!(usize::MAX >> 1).has_most_signifigant_bit());
}

#[test]
fn most_significant_bit_equals_top_position() {
    let v: u32 = 0b1011_1000 << 24;
    assert_eq!(v.has_most_signifigant_bit(), v.has_x_bit(31));
    let s: i64 = -5;
    assert_eq!(s.has_most_signifigant_bit(), s.has_x_bit(63));
}

#[test]
fn low_bits_agree_across_widths() {
    assert!(1u8.has_x_bit(0));
    assert!(1u16.has_x_bit(0));
    assert!(1u32.has_x_bit(0));
    assert!(1u64.has_x_bit(0));
    assert!(1usize.has_x_bit(0));
    assert!(1i8.has_x_bit(0));
    assert!(1i64.has_x_bit(0));
    assert!(1isize.has_x_bit(0));
    for k in 0..8 {
        assert_eq!(0xA5u8.has_x_bit(k), 0xA5u64.has_x_bit(k));
    }
}

#[test]
fn sign_extension_keeps_low_bits() {
    let narrow: i8 = -86;
    let wide = narrow as i64;
    let zero_extended = narrow as u8 as u64;
    for k in 0..8 {
        assert_eq!(narrow.has_x_bit(k), wide.has_x_bit(k));
        assert_eq!(narrow.has_x_bit(k), zero_extended.has_x_bit(k));
    }
    for k in 8..64 {
        assert!(wide.has_x_bit(k));
        assert!(!zero_extended.has_x_bit(k));
    }
}

#[test]
fn repeated_queries_agree() {
    let v: i32 = -123_456;
    for k in 0..40 {
        let first = v.has_x_bit(k);
        let second = v.has_x_bit(k);
        assert_eq!(first, second);
        assert_eq!(v.is_bit_in_bounds(k), v.is_bit_in_bounds(k));
    }
    assert_eq!(v.number_of_bits(), v.number_of_bits());
    assert_eq!(v.has_most_signifigant_bit(), v.has_most_signifigant_bit());
}
