use bitstreams::Bit;
use bitstreams::ParseBitError;
use std::str::FromStr;

#[test]
fn partial_eq_tests_eq_zero_zero() {
    assert!(Bit::Zero == Bit::Zero);
}

#[test]
#[should_panic]
fn partial_eq_tests_eq_zero_one() {
    assert!(Bit::Zero == Bit::One);
}

#[test]
#[should_panic]
fn partial_eq_tests_eq_one_zero() {
    assert!(Bit::One == Bit::Zero);
}

#[test]
fn partial_eq_tests_eq_one_one() {
    assert!(Bit::One == Bit::One);
}

#[test]
#[should_panic]
fn partial_eq_tests_ne_zero_zero() {
    assert!(Bit::Zero != Bit::Zero);
}

#[test]
fn partial_eq_tests_ne_zero_one() {
    assert!(Bit::Zero != Bit::One);
}

#[test]
fn partial_eq_tests_ne_one_zero() {
    assert!(Bit::One != Bit::Zero);
}

#[test]
#[should_panic]
fn partial_eq_tests_ne_one_one() {
    assert!(Bit::One != Bit::One);
}

#[test]
fn to_i32_tests_zero() {
    assert_eq!(Bit::Zero.to_i32(), 0);
}

#[test]
fn to_i32_tests_one() {
    assert_eq!(Bit::One.to_i32(), 1);
}

#[test]
fn to_u32_tests_zero() {
    assert_eq!(Bit::Zero.to_u32(), 0);
}

#[test]
fn to_u32_tests_one() {
    assert_eq!(Bit::One.to_u32(), 1);
}

#[test]
fn not_tests_zero() {
    assert_eq!(!Bit::Zero, Bit::One);
}

#[test]
fn not_tests_one() {
    assert_eq!(!Bit::One, Bit::Zero);
}

#[test]
fn not_ref_tests_zero() {
    assert_eq!(!&Bit::Zero, Bit::One);
}

#[test]
fn not_ref_tests_one() {
    assert_eq!(!&Bit::One, Bit::Zero);
}

#[test]
fn bitwise_and_tests_zero_zero() {
    assert_eq!(Bit::Zero & Bit::Zero, Bit::Zero);
}

#[test]
fn bitwise_and_tests_zero_one() {
    assert_eq!(Bit::Zero & Bit::One, Bit::Zero);
}

#[test]
fn bitwise_and_tests_one_zero() {
    assert_eq!(Bit::One & Bit::Zero, Bit::Zero);
}

#[test]
fn bitwise_and_tests_one_one() {
    assert_eq!(Bit::One & Bit::One, Bit::One);
}

#[test]
fn bitwise_and_ref_lhs_tests_zero_zero() {
    assert_eq!(&Bit::Zero & Bit::Zero, Bit::Zero);
}

#[test]
fn bitwise_and_ref_lhs_tests_zero_one() {
    assert_eq!(&Bit::Zero & Bit::One, Bit::Zero);
}

#[test]
fn bitwise_and_ref_lhs_tests_one_zero() {
    assert_eq!(&Bit::One & Bit::Zero, Bit::Zero);
}

#[test]
fn bitwise_and_ref_lhs_tests_one_one() {
    assert_eq!(&Bit::One & Bit::One, Bit::One);
}

#[test]
fn bitwise_and_ref_rhs_tests_zero_zero() {
    assert_eq!(Bit::Zero & &Bit::Zero, Bit::Zero);
}

#[test]
fn bitwise_and_ref_rhs_tests_zero_one() {
    assert_eq!(Bit::Zero & &Bit::One, Bit::Zero);
}

#[test]
fn bitwise_and_ref_rhs_tests_one_zero() {
    assert_eq!(Bit::One & &Bit::Zero, Bit::Zero);
}

#[test]
fn bitwise_and_ref_rhs_tests_one_one() {
    assert_eq!(Bit::One & &Bit::One, Bit::One);
}

#[test]
fn bitwise_and_ref_lhs_and_rhs_tests_zero_zero() {
    assert_eq!(&Bit::Zero & &Bit::Zero, Bit::Zero);
}

#[test]
fn bitwise_and_ref_lhs_and_rhs_tests_zero_one() {
    assert_eq!(&Bit::Zero & &Bit::One, Bit::Zero);
}

#[test]
fn bitwise_and_ref_lhs_and_rhs_tests_one_zero() {
    assert_eq!(&Bit::One & &Bit::Zero, Bit::Zero);
}

#[test]
fn bitwise_and_ref_lhs_and_rhs_tests_one_one() {
    assert_eq!(&Bit::One & &Bit::One, Bit::One);
}

#[test]
fn bitwise_or_tests_zero_zero() {
    assert_eq!(Bit::Zero | Bit::Zero, Bit::Zero);
}

#[test]
fn bitwise_or_tests_zero_one() {
    assert_eq!(Bit::Zero | Bit::One, Bit::One);
}

#[test]
fn bitwise_or_tests_one_zero() {
    assert_eq!(Bit::One | Bit::Zero, Bit::One);
}

#[test]
fn bitwise_or_tests_one_one() {
    assert_eq!(Bit::One | Bit::One, Bit::One);
}

#[test]
fn bitwise_or_ref_lhs_tests_zero_zero() {
    assert_eq!(&Bit::Zero | Bit::Zero, Bit::Zero);
}

#[test]
fn bitwise_or_ref_lhs_tests_zero_one() {
    assert_eq!(&Bit::Zero | Bit::One, Bit::One);
}

#[test]
fn bitwise_or_ref_lhs_tests_one_zero() {
    assert_eq!(&Bit::One | Bit::Zero, Bit::One);
}

#[test]
fn bitwise_or_ref_lhs_tests_one_one() {
    assert_eq!(&Bit::One | Bit::One, Bit::One);
}

#[test]
fn bitwise_or_ref_rhs_tests_zero_zero() {
    assert_eq!(Bit::Zero | &Bit::Zero, Bit::Zero);
}

#[test]
fn bitwise_or_ref_rhs_tests_zero_one() {
    assert_eq!(Bit::Zero | &Bit::One, Bit::One);
}

#[test]
fn bitwise_or_ref_rhs_tests_one_zero() {
    assert_eq!(Bit::One | &Bit::Zero, Bit::One);
}

#[test]
fn bitwise_or_ref_rhs_tests_one_one() {
    assert_eq!(Bit::One | &Bit::One, Bit::One);
}

#[test]
fn bitwise_or_ref_lhs_and_rhs_tests_zero_zero() {
    assert_eq!(&Bit::Zero | &Bit::Zero, Bit::Zero);
}

#[test]
fn bitwise_or_ref_lhs_and_rhs_tests_zero_one() {
    assert_eq!(&Bit::Zero | &Bit::One, Bit::One);
}

#[test]
fn bitwise_or_ref_lhs_and_rhs_tests_one_zero() {
    assert_eq!(&Bit::One | &Bit::Zero, Bit::One);
}

#[test]
fn bitwise_or_ref_lhs_and_rhs_tests_one_one() {
    assert_eq!(&Bit::One | &Bit::One, Bit::One);
}

#[test]
fn bitwise_xor_tests_zero_zero() {
    assert_eq!(Bit::Zero ^ Bit::Zero, Bit::Zero);
}

#[test]
fn bitwise_xor_tests_zero_one() {
    assert_eq!(Bit::Zero ^ Bit::One, Bit::One);
}

#[test]
fn bitwise_xor_tests_one_zero() {
    assert_eq!(Bit::One ^ Bit::Zero, Bit::One);
}

#[test]
fn bitwise_xor_tests_one_one() {
    assert_eq!(Bit::One ^ Bit::One, Bit::Zero);
}

#[test]
fn bitwise_xor_ref_lhs_tests_zero_zero() {
    assert_eq!(&Bit::Zero ^ Bit::Zero, Bit::Zero);
}

#[test]
fn bitwise_xor_ref_lhs_tests_zero_one() {
    assert_eq!(&Bit::Zero ^ Bit::One, Bit::One);
}

#[test]
fn bitwise_xor_ref_lhs_tests_one_zero() {
    assert_eq!(&Bit::One ^ Bit::Zero, Bit::One);
}

#[test]
fn bitwise_xor_ref_lhs_tests_one_one() {
    assert_eq!(&Bit::One ^ Bit::One, Bit::Zero);
}

#[test]
fn bitwise_xor_ref_rhs_tests_zero_zero() {
    assert_eq!(Bit::Zero ^ &Bit::Zero, Bit::Zero);
}

#[test]
fn bitwise_xor_ref_rhs_tests_zero_one() {
    assert_eq!(Bit::Zero ^ &Bit::One, Bit::One);
}

#[test]
fn bitwise_xor_ref_rhs_tests_one_zero() {
    assert_eq!(Bit::One ^ &Bit::Zero, Bit::One);
}

#[test]
fn bitwise_xor_ref_rhs_tests_one_one() {
    assert_eq!(Bit::One ^ &Bit::One, Bit::Zero);
}

#[test]
fn bitwise_xor_ref_lhs_and_rhs_tests_zero_zero() {
    assert_eq!(&Bit::Zero ^ &Bit::Zero, Bit::Zero);
}

#[test]
fn bitwise_xor_ref_lhs_and_rhs_tests_zero_one() {
    assert_eq!(&Bit::Zero ^ &Bit::One, Bit::One);
}

#[test]
fn bitwise_xor_ref_lhs_and_rhs_tests_one_zero() {
    assert_eq!(&Bit::One ^ &Bit::Zero, Bit::One);
}

#[test]
fn bitwise_xor_ref_lhs_and_rhs_tests_one_one() {
    assert_eq!(&Bit::One ^ &Bit::One, Bit::Zero);
}

#[test]
fn default_tests_test() {
    let def: Bit = Default::default();
    assert_eq!(def, Bit::Zero);
}

#[test]
fn from_str_tests_zero() {
    assert_eq!(FromStr::from_str("0"), Ok(Bit::Zero));
}

#[test]
fn from_str_tests_one() {
    assert_eq!(FromStr::from_str("1"), Ok(Bit::One));
}

#[test]
fn from_str_tests_invalid() {
    assert!(<Bit as FromStr>::from_str("something else").is_err());
}

#[test]
fn from_str_tests_error_display() {
    match <Bit as FromStr>::from_str("something else") {
        Ok(..) => unreachable!(),
        Err(e) => assert_eq!(e.to_string(), "provided string was not `0` or `1`"),
    }
}

#[test]
fn from_str_tests_error_message() {
    match <Bit as FromStr>::from_str("something else") {
        Ok(..) => unreachable!(),
        Err(ref e) => assert_eq!(e.description(), "failed to parse Bit"),
    }
}

#[test]
fn display_tests_zero() {
    assert_eq!(Bit::Zero.to_string(), "0");
}

#[test]
fn display_tests_one() {
    assert_eq!(Bit::One.to_string(), "1");
}

#[test]
fn parse_bit_error_display_tests_display() {
    assert_eq!(ParseBitError.to_string(), "provided string was not `0` or `1`");
}

#[test]
fn parse_bit_error_description_tests_description() {
    assert_eq!(ParseBitError.description(), "failed to parse Bit");
}

#[test]
fn round_trip_zero() {
    assert_eq!(Bit::parse(&Bit::Zero.to_string()), Ok(Bit::Zero));
}

#[test]
fn round_trip_one() {
    assert_eq!(Bit::parse(&Bit::One.to_string()), Ok(Bit::One));
}

#[test]
fn parse_rejects_empty() {
    match Bit::parse("") {
        Ok(..) => unreachable!(),
        Err(e) => assert_eq!(e.to_string(), "provided string was not `0` or `1`"),
    }
}

#[test]
fn parse_rejects_two() {
    match Bit::parse("2") {
        Ok(..) => unreachable!(),
        Err(e) => assert_eq!(e.to_string(), "provided string was not `0` or `1`"),
    }
}

#[test]
fn parse_rejects_padded_zero() {
    match Bit::parse(" 0") {
        Ok(..) => unreachable!(),
        Err(e) => assert_eq!(e.to_string(), "provided string was not `0` or `1`"),
    }
}

#[test]
fn parse_rejects_double_zero() {
    assert_eq!(Bit::parse("00"), Err(ParseBitError));
}

#[test]
fn parse_rejects_word() {
    assert_eq!(Bit::parse("true"), Err(ParseBitError));
}

#[test]
fn ordering_zero_before_one() {
    assert!(Bit::Zero < Bit::One);
    assert!(!(Bit::One < Bit::Zero));
    assert!(Bit::One > Bit::Zero);
}

#[test]
fn ordering_equal_cases() {
    assert!(Bit::Zero <= Bit::Zero);
    assert!(Bit::One <= Bit::One);
    assert!(Bit::Zero != Bit::One);
}
