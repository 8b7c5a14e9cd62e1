use weather_station::random::{bits_to_u64, option_when, Random};

#[test]
fn bits_are_read_most_significant_first() {
    assert_eq!(bits_to_u64(&[]), 0);
    assert_eq!(bits_to_u64(&[true, false, true]), 5);
    assert_eq!(bits_to_u64(&[true; 64]), u64::MAX);
}

#[test]
fn from_bits_per_type() {
    let byte = [true, false, false, false, false, false, false, true];
    assert_eq!(u8::from_bits(&byte), 0x81);
    assert_eq!(i8::from_bits(&byte), -127);
    let mut word = [false; 16];
    word[15] = true;
    assert_eq!(u16::from_bits(&word), 1);
    assert_eq!(i16::from_bits(&[true; 16]), -1);
    assert_eq!(u32::from_bits(&[true; 32]), u32::MAX);
    assert_eq!(i32::from_bits(&[false; 32]), 0);
    assert_eq!(i64::from_bits(&[true; 64]), -1);
    assert_eq!(u64::from_bits(&[false; 64]), 0);
}

#[test]
fn option_when_follows_the_bit() {
    assert_eq!(option_when(true, || 7u8), Some(7));
    let mut called = false;
    assert_eq!(option_when(false, || { called = true; 7u8 }), None);
    assert!(!called);
}
