use factorial::integer::Integer;
use factorial::Factorial;

#[test]
fn checked_factorial_to_the_limit_of_i8() {
    let last: i8 = 5;
    assert_eq!(last.checked_factorial(), Some(120));
    let first_too_large: i8 = 6;
    assert_eq!(first_too_large.checked_factorial(), None);
    assert_eq!(i8::MAX.checked_factorial(), None);
}

#[test]
fn checked_factorial_to_the_limit_of_i16() {
    let last: i16 = 7;
    assert_eq!(last.checked_factorial(), Some(5_040));
    let first_too_large: i16 = 8;
    assert_eq!(first_too_large.checked_factorial(), None);
    assert_eq!(i16::MAX.checked_factorial(), None);
}

#[test]
fn checked_factorial_to_the_limit_of_i32() {
    let last: i32 = 12;
    assert_eq!(last.checked_factorial(), Some(479_001_600));
    let first_too_large: i32 = 13;
    assert_eq!(first_too_large.checked_factorial(), None);
    assert_eq!(i32::MAX.checked_factorial(), None);
}

#[test]
fn checked_factorial_to_the_limit_of_i64() {
    let last: i64 = 20;
    assert_eq!(last.checked_factorial(), Some(2_432_902_008_176_640_000));
    let first_too_large: i64 = 21;
    assert_eq!(first_too_large.checked_factorial(), None);
    assert_eq!(i64::MAX.checked_factorial(), None);
}

#[test]
fn checked_factorial_to_the_limit_of_i128() {
    let last: i128 = 33;
    assert_eq!(last.checked_factorial(), Some(8_683_317_618_811_886_495_518_194_401_280_000_000));
    let first_too_large: i128 = 34;
    assert_eq!(first_too_large.checked_factorial(), None);
    assert_eq!(i128::MAX.checked_factorial(), None);
}

#[test]
fn checked_factorial_to_the_limit_of_isize() {
    let last: isize = 20;
    assert_eq!(last.checked_factorial(), Some(2_432_902_008_176_640_000));
    let first_too_large: isize = 21;
    assert_eq!(first_too_large.checked_factorial(), None);
    assert_eq!(isize::MAX.checked_factorial(), None);
}

#[test]
fn checked_factorial_to_the_limit_of_u8() {
    let last: u8 = 5;
    assert_eq!(last.checked_factorial(), Some(120));
    let first_too_large: u8 = 6;
    assert_eq!(first_too_large.checked_factorial(), None);
    assert_eq!(u8::MAX.checked_factorial(), None);
}

#[test]
fn checked_factorial_to_the_limit_of_u16() {
    let last: u16 = 8;
    assert_eq!(last.checked_factorial(), Some(40_320));
    let first_too_large: u16 = 9;
    assert_eq!(first_too_large.checked_factorial(), None);
    assert_eq!(u16::MAX.checked_factorial(), None);
}

#[test]
fn checked_factorial_to_the_limit_of_u32() {
    let last: u32 = 12;
    assert_eq!(last.checked_factorial(), Some(479_001_600));
    let first_too_large: u32 = 13;
    assert_eq!(first_too_large.checked_factorial(), None);
    assert_eq!(u32::MAX.checked_factorial(), None);
}

#[test]
fn checked_factorial_to_the_limit_of_u64() {
    let last: u64 = 20;
    assert_eq!(last.checked_factorial(), Some(2_432_902_008_176_640_000));
    let first_too_large: u64 = 21;
    assert_eq!(first_too_large.checked_factorial(), None);
    assert_eq!(u64::MAX.checked_factorial(), None);
}

#[test]
fn checked_factorial_to_the_limit_of_u128() {
    let last: u128 = 34;
    assert_eq!(last.checked_factorial(), Some(295_232_799_039_604_140_847_618_609_643_520_000_000));
    let first_too_large: u128 = 35;
    assert_eq!(first_too_large.checked_factorial(), None);
    assert_eq!(u128::MAX.checked_factorial(), None);
}

#[test]
fn checked_factorial_to_the_limit_of_usize() {
    let last: usize = 20;
    assert_eq!(last.checked_factorial(), Some(2_432_902_008_176_640_000));
    let first_too_large: usize = 21;
    assert_eq!(first_too_large.checked_factorial(), None);
    assert_eq!(usize::MAX.checked_factorial(), None);
}

#[test]
fn checked_factorial_of_a_negative_i8() {
    let minus_one: i8 = -1;
    assert_eq!(minus_one.checked_factorial(), None);
    assert_eq!(i8::MIN.checked_factorial(), None);
}

#[test]
fn checked_factorial_of_a_negative_i16() {
    let minus_one: i16 = -1;
    assert_eq!(minus_one.checked_factorial(), None);
    assert_eq!(i16::MIN.checked_factorial(), None);
}

#[test]
fn checked_factorial_of_a_negative_i32() {
    let minus_one: i32 = -1;
    assert_eq!(minus_one.checked_factorial(), None);
    assert_eq!(i32::MIN.checked_factorial(), None);
}

#[test]
fn checked_factorial_of_a_negative_i64() {
    let minus_one: i64 = -1;
    assert_eq!(minus_one.checked_factorial(), None);
    assert_eq!(i64::MIN.checked_factorial(), None);
}

#[test]
fn checked_factorial_of_a_negative_i128() {
    let minus_one: i128 = -1;
    assert_eq!(minus_one.checked_factorial(), None);
    assert_eq!(i128::MIN.checked_factorial(), None);
}

#[test]
fn checked_factorial_of_a_negative_isize() {
    let minus_one: isize = -1;
    assert_eq!(minus_one.checked_factorial(), None);
    assert_eq!(isize::MIN.checked_factorial(), None);
}

#[test]
fn checked_factorial_known_sequence() {
    let facts: Vec<i32> = vec![1, 1, 2, 6, 24, 120, 720, 5_040, 40_320, 362_880, 3_628_800];
    let mut n: i32 = 0;
    for expected in facts {
        assert_eq!(n.checked_factorial(), Some(expected));
        n += 1;
    }
}

#[test]
fn checked_factorial_agrees_with_factorial() {
    let mut n: u64 = 0;
    while n <= 20 {
        assert_eq!(n.checked_factorial(), Some(n.factorial()));
        n += 1;
    }
}

#[test]
fn identities_of_the_machine_integers() {
    assert_eq!(<u8 as Integer>::zero(), 0);
    assert_eq!(<u8 as Integer>::one(), 1);
    assert_eq!(<i64 as Integer>::zero(), 0);
    assert_eq!(<i64 as Integer>::one(), 1);
    assert_eq!(<usize as Integer>::zero(), 0);
    assert_eq!(<usize as Integer>::one(), 1);
}

#[test]
fn order_of_the_machine_integers() {
    assert!(3u32.at_most(&4));
    assert!(4u32.at_most(&4));
    assert!(!5u32.at_most(&4));
    assert!((-5i32).at_most(&-4));
    assert!(!(4i32).at_most(&-4));
}

#[test]
fn sum_and_product_of_the_machine_integers() {
    assert_eq!(200u8.sum(&55), 255);
    assert_eq!((-100i8).sum(&-28), -128);
    assert_eq!(15u8.product(&17), 255);
    assert_eq!((-16i8).product(&8), -128);
    assert_eq!(6u64.product(&7), 42);
}

#[test]
fn checked_product_of_the_machine_integers() {
    assert_eq!(15u8.checked_product(&17), Some(255));
    assert_eq!(16u8.checked_product(&16), None);
    assert_eq!((-16i8).checked_product(&8), Some(-128));
    assert_eq!(16i8.checked_product(&8), None);
    assert_eq!((-16i8).checked_product(&9), None);
    assert_eq!(u128::MAX.checked_product(&1), Some(u128::MAX));
    assert_eq!(u128::MAX.checked_product(&2), None);
}
