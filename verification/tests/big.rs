use factorial::integer::Integer;
use factorial::Factorial;
use num_bigint::{BigInt, BigUint};
use num_traits::FromPrimitive;

#[test]
fn factorial_num_bigint() {
    let a = BigUint::from_u32(30).unwrap();
    assert_eq!(
        a.factorial().to_string(),
        "265252859812191058636308480000000"
    );
}

#[test]
fn factorial_of_a_big_int() {
    let a = BigInt::from(30);
    assert_eq!(
        a.factorial().to_string(),
        "265252859812191058636308480000000"
    );
}

#[test]
fn factorial_of_zero_is_one_big() {
    assert_eq!(BigUint::from(0u32).factorial(), BigUint::from(1u32));
    assert_eq!(BigInt::from(0).factorial(), BigInt::from(1));
}

#[test]
fn factorial_of_five_is_120_big() {
    assert_eq!(BigUint::from(5u32).factorial(), BigUint::from(120u32));
    assert_eq!(BigInt::from(5).factorial(), BigInt::from(120));
}

#[test]
fn known_sequence_big() {
    let facts: Vec<u32> = vec![1, 1, 2, 6, 24, 120, 720, 5_040, 40_320, 362_880, 3_628_800];
    let mut n: u32 = 0;
    for expected in facts {
        assert_eq!(BigUint::from(n).factorial(), BigUint::from(expected));
        assert_eq!(BigInt::from(n).factorial(), BigInt::from(expected));
        n += 1;
    }
}

#[test]
fn big_factorial_goes_on_where_the_widest_machine_integer_ends() {
    let a = BigUint::from(35u32);
    assert_eq!(35u128.checked_factorial(), None);
    assert_eq!(
        a.factorial().to_string(),
        "10333147966386144929666651337523200000000"
    );
    assert_eq!(a.checked_factorial(), Some(a.factorial()));
}

#[test]
fn big_factorial_agrees_with_the_machine_integers() {
    let mut n: u128 = 0;
    while n <= 34 {
        assert_eq!(BigUint::from(n).factorial(), BigUint::from(n.factorial()));
        n += 1;
    }
}

#[test]
fn big_factorial_obeys_the_recurrence() {
    let mut n: u32 = 1;
    while n <= 60 {
        let a = BigUint::from(n);
        let before = BigUint::from(n - 1);
        assert_eq!(a.factorial(), &a * before.factorial());
        assert!(before.factorial() <= a.factorial());
        n += 1;
    }
}

#[test]
fn checked_factorial_of_a_big_int() {
    assert_eq!(BigInt::from(-1).checked_factorial(), None);
    assert_eq!(BigInt::from(-30).checked_factorial(), None);
    assert_eq!(BigInt::from(0).checked_factorial(), Some(BigInt::from(1)));
    assert_eq!(
        BigInt::from(10).checked_factorial(),
        Some(BigInt::from(3_628_800))
    );
}

#[test]
fn checked_factorial_of_a_big_uint() {
    assert_eq!(
        BigUint::from(0u32).checked_factorial(),
        Some(BigUint::from(1u32))
    );
    assert_eq!(
        BigUint::from(10u32).checked_factorial(),
        Some(BigUint::from(3_628_800u32))
    );
}

#[test]
fn identities_of_the_big_integers() {
    assert_eq!(<BigUint as Integer>::zero(), BigUint::from(0u32));
    assert_eq!(<BigUint as Integer>::one(), BigUint::from(1u32));
    assert_eq!(<BigInt as Integer>::zero(), BigInt::from(0));
    assert_eq!(<BigInt as Integer>::one(), BigInt::from(1));
}

#[test]
fn order_of_the_big_integers() {
    let three = BigUint::from(3u32);
    let four = BigUint::from(4u32);
    assert!(three.at_most(&four));
    assert!(four.at_most(&four));
    assert!(!four.at_most(&three));
    let minus_five = BigInt::from(-5);
    let minus_four = BigInt::from(-4);
    assert!(minus_five.at_most(&minus_four));
    assert!(!minus_four.at_most(&minus_five));
    assert!(minus_four.at_most(&BigInt::from(4)));
    assert!(!BigInt::from(4).at_most(&minus_four));
}

#[test]
fn sum_of_the_big_integers() {
    let a = BigUint::from(u64::MAX);
    let b = BigUint::from(1u32);
    assert_eq!(Integer::sum(&a, &b).to_string(), "18446744073709551616");
    let c = BigInt::from(-7);
    let d = BigInt::from(3);
    assert_eq!(Integer::sum(&c, &d), BigInt::from(-4));
}

#[test]
fn product_of_the_big_integers() {
    let a = BigUint::from(u64::MAX);
    let b = BigUint::from(u64::MAX);
    assert_eq!(
        Integer::product(&a, &b).to_string(),
        "340282366920938463426481119284349108225"
    );
    assert_eq!(Integer::checked_product(&a, &b), Some(Integer::product(&a, &b)));
    let c = BigInt::from(-7);
    let d = BigInt::from(3);
    assert_eq!(Integer::product(&c, &d), BigInt::from(-21));
    assert_eq!(Integer::product(&c, &c), BigInt::from(49));
    assert_eq!(Integer::checked_product(&c, &d), Some(BigInt::from(-21)));
}
