use pl011::ints::{NonZeroU16, NonZeroU8, U2, U3, U6};

#[test]
fn narrow_integers_reject_values_that_do_not_fit() {
    assert_eq!(U2::new(3).map(|v| v.value()), Some(3));
    assert!(U2::new(4).is_none());
    assert_eq!(U3::new(7).map(|v| v.value()), Some(7));
    assert!(U3::new(8).is_none());
    assert_eq!(U6::new(63).map(|v| v.value()), Some(63));
    assert!(U6::new(64).is_none());
}

#[test]
fn trimmed_new_keeps_the_low_bits() {
    assert_eq!(U2::trimmed_new(0b1111_1110).value(), 0b10);
    assert_eq!(U3::trimmed_new(0b1010_1101).value(), 0b101);
    assert_eq!(U6::trimmed_new(0xff).value(), 63);
}

#[test]
fn non_zero_integers_reject_zero() {
    assert!(NonZeroU8::new(0).is_none());
    assert_eq!(NonZeroU8::new(9).map(|v| v.get()), Some(9));
    assert!(NonZeroU16::new(0).is_none());
    assert_eq!(NonZeroU16::new(0xffff).map(|v| v.get()), Some(0xffff));
}

#[test]
fn non_zero_decoding_hands_back_the_reserved_pattern() {
    assert_eq!(NonZeroU8::try_from_bits(0), Err(0));
    assert_eq!(NonZeroU8::try_from_bits(0xff).map(|v| v.get()), Ok(0xff));
    assert_eq!(NonZeroU16::try_from_bits(0), Err(0));
    assert_eq!(NonZeroU16::try_from_bits(1).map(|v| v.get()), Ok(1));
}
