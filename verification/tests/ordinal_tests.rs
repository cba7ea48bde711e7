use ordinal::Ordinal;
use ordinal::ToOrdinal;

#[test]
fn test_number() {
    let two: Ordinal<i32> = Ordinal(2);
    let twelve = Ordinal::from(12);

    assert!(two < twelve);
    assert_eq!(twelve.0, 12);
    assert_eq!(twelve.to_string(), String::from("12th"));
}

#[test]
fn test_fmt() {
    assert_eq!(0u8.to_ordinal_string(), "0th");
    assert_eq!(1u16.to_ordinal_string(), "1st");
    assert_eq!(2u32.to_ordinal_string(), "2nd");
    assert_eq!(3u64.to_ordinal_string(), "3rd");
    assert_eq!(4u128.to_ordinal_string(), "4th");
    assert_eq!(5usize.to_ordinal_string(), "5th");
    assert_eq!(6i8.to_ordinal_string(), "6th");
    assert_eq!(7i16.to_ordinal_string(), "7th");
    assert_eq!(8i32.to_ordinal_string(), "8th");
    assert_eq!(9i64.to_ordinal_string(), "9th");
    assert_eq!(10i128.to_ordinal_string(), "10th");
    assert_eq!(11isize.to_ordinal_string(), "11th");

    assert_eq!((-0i8).to_ordinal_string(), "0th");
    assert_eq!((-1i16).to_ordinal_string(), "-1st");
    assert_eq!((-2i32).to_ordinal_string(), "-2nd");
    assert_eq!((-3i64).to_ordinal_string(), "-3rd");
    assert_eq!((-4i128).to_ordinal_string(), "-4th");
    assert_eq!((-5isize).to_ordinal_string(), "-5th");
    assert_eq!((-6i8).to_ordinal_string(), "-6th");
    assert_eq!((-7i16).to_ordinal_string(), "-7th");
    assert_eq!((-8i32).to_ordinal_string(), "-8th");
    assert_eq!((-9i64).to_ordinal_string(), "-9th");
    assert_eq!((-10i128).to_ordinal_string(), "-10th");
    assert_eq!((-11isize).to_ordinal_string(), "-11th");

    assert_eq!(19u8.to_ordinal_string(), "19th");
    assert_eq!(20u8.to_ordinal_string(), "20th");
    assert_eq!(21u8.to_ordinal_string(), "21st");
    assert_eq!(22u8.to_ordinal_string(), "22nd");
    assert_eq!(23u8.to_ordinal_string(), "23rd");
    assert_eq!(24u8.to_ordinal_string(), "24th");

    assert_eq!(100u8.to_ordinal_string(), "100th");
    assert_eq!(101u8.to_ordinal_string(), "101st");

    assert_eq!(111u8.to_ordinal_string(), "111th");
    assert_eq!(112u8.to_ordinal_string(), "112th");

    assert_eq!(1001u32.to_ordinal_string(), "1001st");
    assert_eq!(1002u32.to_ordinal_string(), "1002nd");
    assert_eq!(1003u32.to_ordinal_string(), "1003rd");
    assert_eq!(1004u32.to_ordinal_string(), "1004th");

    assert_eq!(10001001u128.to_ordinal_string(), "10001001st");
    assert_eq!(10001002u128.to_ordinal_string(), "10001002nd");
    assert_eq!(10001003u128.to_ordinal_string(), "10001003rd");
    assert_eq!(10001004u128.to_ordinal_string(), "10001004th");

    assert_eq!(10001111u128.to_ordinal_string(), "10001111th");
    assert_eq!(10001111u128.to_ordinal_string(), "10001111th");
    assert_eq!(10001111u128.to_ordinal_string(), "10001111th");
}

#[test]
fn test_suffix() {
    assert_eq!(0u8.suffix(), "th");
    assert_eq!(1u16.suffix(), "st");
    assert_eq!(2u32.suffix(), "nd");
    assert_eq!(3u64.suffix(), "rd");
    assert_eq!(4u128.suffix(), "th");
    assert_eq!(5usize.suffix(), "th");
    assert_eq!(6i8.suffix(), "th");
    assert_eq!(7i16.suffix(), "th");
    assert_eq!(8i32.suffix(), "th");
    assert_eq!(9i64.suffix(), "th");
    assert_eq!(10i128.suffix(), "th");
    assert_eq!(11isize.suffix(), "th");

    assert_eq!((-0i8).suffix(), "th");
    assert_eq!((-1i16).suffix(), "st");
    assert_eq!((-2i32).suffix(), "nd");
    assert_eq!((-3i64).suffix(), "rd");
    assert_eq!((-4i128).suffix(), "th");
    assert_eq!((-5isize).suffix(), "th");
    assert_eq!((-6i8).suffix(), "th");
    assert_eq!((-7i16).suffix(), "th");
    assert_eq!((-8i32).suffix(), "th");
    assert_eq!((-9i64).suffix(), "th");
    assert_eq!((-10i128).suffix(), "th");
    assert_eq!((-11isize).suffix(), "th");

    assert_eq!(19u8.suffix(), "th");
    assert_eq!(20u8.suffix(), "th");
    assert_eq!(21u8.suffix(), "st");
    assert_eq!(22u8.suffix(), "nd");
    assert_eq!(23u8.suffix(), "rd");
    assert_eq!(24u8.suffix(), "th");

    assert_eq!(100u8.suffix(), "th");
    assert_eq!(101u8.suffix(), "st");

    assert_eq!(111u8.suffix(), "th");
    assert_eq!(112u8.suffix(), "th");

    assert_eq!(1001u32.suffix(), "st");
    assert_eq!(1002u32.suffix(), "nd");
    assert_eq!(1003u32.suffix(), "rd");
    assert_eq!(1004u32.suffix(), "th");

    assert_eq!(10001001u128.suffix(), "st");
    assert_eq!(10001002u128.suffix(), "nd");
    assert_eq!(10001003u128.suffix(), "rd");
    assert_eq!(10001004u128.suffix(), "th");

    assert_eq!(10001111u128.suffix(), "th");
    assert_eq!(10001111u128.suffix(), "th");
    assert_eq!(10001111u128.suffix(), "th");
}
