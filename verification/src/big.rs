//! The big integers of `num_bigint` as integer types.
//!
//! Verus cannot look inside a `BigUint` or a `BigInt`. What it knows of one is
//! the digits that the value holds, and what the functions at the end of this
//! file state of `num_bigint`'s arithmetic on them without proof.

use vstd::prelude::*;
use num_bigint::{BigInt, BigUint};
use crate::integer::Integer;
use crate::Factorial;

verus! {

/// `num_bigint::BigUint`, a big unsigned integer, as a type that is carried
/// through and never looked into.
#[verifier::external_type_specification]
#[verifier::external_body]
pub struct ExBigUint(num_bigint::BigUint);

/// `num_bigint::BigInt`, a big signed integer, as a type that is carried
/// through and never looked into.
#[verifier::external_type_specification]
#[verifier::external_body]
pub struct ExBigInt(num_bigint::BigInt);

/// The digits of `n` in base 2^32, least significant first, as
/// `BigUint::to_u32_digits` gives them.
pub uninterp spec fn biguint_digits(n: BigUint) -> Seq<u32>;

/// The digits of the magnitude of `n` in base 2^32, least significant first,
/// as `BigInt::to_u32_digits` gives them beside the sign.
pub uninterp spec fn bigint_digits(n: BigInt) -> Seq<u32>;

/// Whether the sign of `n` is `Sign::Minus`.
pub uninterp spec fn bigint_is_negative(n: BigInt) -> bool;

/// The number that a sequence of digits in base 2^32 stands for, least
/// significant digit first.
pub open spec fn digits_value(digits: Seq<u32>) -> nat
    decreases digits.len(),
{
    if digits.len() == 0 {
        0
    } else {
        digits[0] as nat + 0x1_0000_0000 * digits_value(digits.drop_first())
    }
}

/// The number that a sign and a sequence of digits in base 2^32 stand for.
pub open spec fn signed_value(negative: bool, digits: Seq<u32>) -> int {
    if negative {
        -(digits_value(digits) as int)
    } else {
        digits_value(digits) as int
    }
}

impl Integer for BigUint {
    open spec fn value(&self) -> int {
        digits_value(biguint_digits(*self)) as int
    }

    open spec fn holds(v: int) -> bool {
        v >= 0
    }

    proof fn holds_below(a: int, b: int) {
    }

    proof fn holds_small(v: int) {
    }

    fn zero() -> (r: Self)
        ensures
            r.value() == 0,
    {
        biguint_zero()
    }

    fn one() -> (r: Self)
        ensures
            r.value() == 1,
    {
        biguint_one()
    }

    fn at_most(&self, other: &Self) -> (b: bool)
        ensures
            b == (self.value() <= other.value()),
    {
        biguint_le(self, other)
    }

    fn sum(&self, other: &Self) -> (r: Self)
        ensures
            r.value() == self.value() + other.value(),
    {
        biguint_add(self, other)
    }

    fn product(&self, other: &Self) -> (r: Self)
        ensures
            r.value() == self.value() * other.value(),
    {
        biguint_mul(self, other)
    }

    fn checked_product(&self, other: &Self) -> (r: Option<Self>)
        ensures
            r is Some,
            r.unwrap().value() == self.value() * other.value(),
    {
        Some(biguint_mul(self, other))
    }
}

impl Factorial for BigUint {
}

impl Integer for BigInt {
    open spec fn value(&self) -> int {
        signed_value(bigint_is_negative(*self), bigint_digits(*self))
    }

    open spec fn holds(v: int) -> bool {
        true
    }

    proof fn holds_below(a: int, b: int) {
    }

    proof fn holds_small(v: int) {
    }

    fn zero() -> (r: Self)
        ensures
            r.value() == 0,
    {
        bigint_zero()
    }

    fn one() -> (r: Self)
        ensures
            r.value() == 1,
    {
        bigint_one()
    }

    fn at_most(&self, other: &Self) -> (b: bool)
        ensures
            b == (self.value() <= other.value()),
    {
        bigint_le(self, other)
    }

    fn sum(&self, other: &Self) -> (r: Self)
        ensures
            r.value() == self.value() + other.value(),
    {
        bigint_add(self, other)
    }

    fn product(&self, other: &Self) -> (r: Self)
        ensures
            r.value() == self.value() * other.value(),
    {
        bigint_mul(self, other)
    }

    fn checked_product(&self, other: &Self) -> (r: Option<Self>)
        ensures
            r is Some,
            r.unwrap().value() == self.value() * other.value(),
    {
        Some(bigint_mul(self, other))
    }
}

impl Factorial for BigInt {
}

/// `<BigUint as num_traits::Zero>::zero`: the result stands for 0.
#[verifier::external_body]
fn biguint_zero() -> (r: BigUint)
    ensures
        digits_value(biguint_digits(r)) == 0,
{
    num_traits::Zero::zero()
}

/// `<BigUint as num_traits::One>::one`: the result stands for 1.
#[verifier::external_body]
fn biguint_one() -> (r: BigUint)
    ensures
        digits_value(biguint_digits(r)) == 1,
{
    num_traits::One::one()
}

/// `<=` on `BigUint`: it orders the values as the numbers that they stand for.
#[verifier::external_body]
fn biguint_le(a: &BigUint, b: &BigUint) -> (r: bool)
    ensures
        r == (digits_value(biguint_digits(*a)) <= digits_value(biguint_digits(*b))),
{
    a <= b
}

/// `+` on two `&BigUint`: the result stands for the sum of the two numbers.
#[verifier::external_body]
fn biguint_add(a: &BigUint, b: &BigUint) -> (r: BigUint)
    ensures
        digits_value(biguint_digits(r)) == digits_value(biguint_digits(*a))
            + digits_value(biguint_digits(*b)),
{
    a + b
}

/// `*` on two `&BigUint`: the result stands for the product of the two numbers.
#[verifier::external_body]
fn biguint_mul(a: &BigUint, b: &BigUint) -> (r: BigUint)
    ensures
        digits_value(biguint_digits(r)) == digits_value(biguint_digits(*a))
            * digits_value(biguint_digits(*b)),
{
    a * b
}

/// `<BigInt as num_traits::Zero>::zero`: the result stands for 0.
#[verifier::external_body]
fn bigint_zero() -> (r: BigInt)
    ensures
        signed_value(bigint_is_negative(r), bigint_digits(r)) == 0,
{
    num_traits::Zero::zero()
}

/// `<BigInt as num_traits::One>::one`: the result stands for 1.
#[verifier::external_body]
fn bigint_one() -> (r: BigInt)
    ensures
        signed_value(bigint_is_negative(r), bigint_digits(r)) == 1,
{
    num_traits::One::one()
}

/// `<=` on `BigInt`: it orders the values as the numbers that they stand for.
#[verifier::external_body]
fn bigint_le(a: &BigInt, b: &BigInt) -> (r: bool)
    ensures
        r == (signed_value(bigint_is_negative(*a), bigint_digits(*a))
            <= signed_value(bigint_is_negative(*b), bigint_digits(*b))),
{
    a <= b
}

/// `+` on two `&BigInt`: the result stands for the sum of the two numbers.
#[verifier::external_body]
fn bigint_add(a: &BigInt, b: &BigInt) -> (r: BigInt)
    ensures
        signed_value(bigint_is_negative(r), bigint_digits(r))
            == signed_value(bigint_is_negative(*a), bigint_digits(*a))
            + signed_value(bigint_is_negative(*b), bigint_digits(*b)),
{
    a + b
}

/// `*` on two `&BigInt`: the result stands for the product of the two numbers.
#[verifier::external_body]
fn bigint_mul(a: &BigInt, b: &BigInt) -> (r: BigInt)
    ensures
        signed_value(bigint_is_negative(r), bigint_digits(r))
            == signed_value(bigint_is_negative(*a), bigint_digits(*a))
            * signed_value(bigint_is_negative(*b), bigint_digits(*b)),
{
    a * b
}

} // verus!
