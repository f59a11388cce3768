//! The machine integers as integer types.
//!
//! Each type holds the integers between its `MIN` and its `MAX`. The sum and
//! the product are the type's own `+` and `*`, on operands whose result the
//! type holds; the checked product is the type's `checked_mul`.

use vstd::prelude::*;
use crate::integer::Integer;
use crate::math::{factorial_is_positive, factorial_of, factorial_values, factorial_within};
use crate::Factorial;

verus! {

impl Integer for i8 {
    open spec fn value(&self) -> int {
        *self as int
    }

    open spec fn holds(v: int) -> bool {
        i8::MIN <= v <= i8::MAX
    }

    proof fn holds_below(a: int, b: int) {
    }

    proof fn holds_small(v: int) {
    }

    fn zero() -> (r: Self)
        ensures
            r == 0,
    {
        0
    }

    fn one() -> (r: Self)
        ensures
            r == 1,
    {
        1
    }

    fn at_most(&self, other: &Self) -> (b: bool)
        ensures
            b == (*self <= *other),
    {
        *self <= *other
    }

    fn sum(&self, other: &Self) -> (r: Self)
        ensures
            r == *self + *other,
    {
        *self + *other
    }

    fn product(&self, other: &Self) -> (r: Self)
        ensures
            r == *self * *other,
    {
        *self * *other
    }

    fn checked_product(&self, other: &Self) -> (r: Option<Self>)
        ensures
            r is Some <==> i8::MIN <= *self * *other <= i8::MAX,
            r is Some ==> r.unwrap() == *self * *other,
    {
        self.checked_mul(*other)
    }
}

impl Factorial for i8 {
}

/// Of all factorials, `i8` holds those of 0 to 5.
pub proof fn factorials_in_i8(n: nat)
    ensures
        <i8 as Integer>::holds(factorial_of(n) as int) <==> n <= 5,
{
    factorial_values();
    factorial_is_positive(n);
    factorial_within(i8::MAX as int, 5, n);
}

impl Integer for i16 {
    open spec fn value(&self) -> int {
        *self as int
    }

    open spec fn holds(v: int) -> bool {
        i16::MIN <= v <= i16::MAX
    }

    proof fn holds_below(a: int, b: int) {
    }

    proof fn holds_small(v: int) {
    }

    fn zero() -> (r: Self)
        ensures
            r == 0,
    {
        0
    }

    fn one() -> (r: Self)
        ensures
            r == 1,
    {
        1
    }

    fn at_most(&self, other: &Self) -> (b: bool)
        ensures
            b == (*self <= *other),
    {
        *self <= *other
    }

    fn sum(&self, other: &Self) -> (r: Self)
        ensures
            r == *self + *other,
    {
        *self + *other
    }

    fn product(&self, other: &Self) -> (r: Self)
        ensures
            r == *self * *other,
    {
        *self * *other
    }

    fn checked_product(&self, other: &Self) -> (r: Option<Self>)
        ensures
            r is Some <==> i16::MIN <= *self * *other <= i16::MAX,
            r is Some ==> r.unwrap() == *self * *other,
    {
        self.checked_mul(*other)
    }
}

impl Factorial for i16 {
}

/// Of all factorials, `i16` holds those of 0 to 7.
pub proof fn factorials_in_i16(n: nat)
    ensures
        <i16 as Integer>::holds(factorial_of(n) as int) <==> n <= 7,
{
    factorial_values();
    factorial_is_positive(n);
    factorial_within(i16::MAX as int, 7, n);
}

impl Integer for i32 {
    open spec fn value(&self) -> int {
        *self as int
    }

    open spec fn holds(v: int) -> bool {
        i32::MIN <= v <= i32::MAX
    }

    proof fn holds_below(a: int, b: int) {
    }

    proof fn holds_small(v: int) {
    }

    fn zero() -> (r: Self)
        ensures
            r == 0,
    {
        0
    }

    fn one() -> (r: Self)
        ensures
            r == 1,
    {
        1
    }

    fn at_most(&self, other: &Self) -> (b: bool)
        ensures
            b == (*self <= *other),
    {
        *self <= *other
    }

    fn sum(&self, other: &Self) -> (r: Self)
        ensures
            r == *self + *other,
    {
        *self + *other
    }

    fn product(&self, other: &Self) -> (r: Self)
        ensures
            r == *self * *other,
    {
        *self * *other
    }

    fn checked_product(&self, other: &Self) -> (r: Option<Self>)
        ensures
            r is Some <==> i32::MIN <= *self * *other <= i32::MAX,
            r is Some ==> r.unwrap() == *self * *other,
    {
        self.checked_mul(*other)
    }
}

impl Factorial for i32 {
}

/// Of all factorials, `i32` holds those of 0 to 12.
pub proof fn factorials_in_i32(n: nat)
    ensures
        <i32 as Integer>::holds(factorial_of(n) as int) <==> n <= 12,
{
    factorial_values();
    factorial_is_positive(n);
    factorial_within(i32::MAX as int, 12, n);
}

impl Integer for i64 {
    open spec fn value(&self) -> int {
        *self as int
    }

    open spec fn holds(v: int) -> bool {
        i64::MIN <= v <= i64::MAX
    }

    proof fn holds_below(a: int, b: int) {
    }

    proof fn holds_small(v: int) {
    }

    fn zero() -> (r: Self)
        ensures
            r == 0,
    {
        0
    }

    fn one() -> (r: Self)
        ensures
            r == 1,
    {
        1
    }

    fn at_most(&self, other: &Self) -> (b: bool)
        ensures
            b == (*self <= *other),
    {
        *self <= *other
    }

    fn sum(&self, other: &Self) -> (r: Self)
        ensures
            r == *self + *other,
    {
        *self + *other
    }

    fn product(&self, other: &Self) -> (r: Self)
        ensures
            r == *self * *other,
    {
        *self * *other
    }

    fn checked_product(&self, other: &Self) -> (r: Option<Self>)
        ensures
            r is Some <==> i64::MIN <= *self * *other <= i64::MAX,
            r is Some ==> r.unwrap() == *self * *other,
    {
        self.checked_mul(*other)
    }
}

impl Factorial for i64 {
}

/// Of all factorials, `i64` holds those of 0 to 20.
pub proof fn factorials_in_i64(n: nat)
    ensures
        <i64 as Integer>::holds(factorial_of(n) as int) <==> n <= 20,
{
    factorial_values();
    factorial_is_positive(n);
    factorial_within(i64::MAX as int, 20, n);
}

impl Integer for i128 {
    open spec fn value(&self) -> int {
        *self as int
    }

    open spec fn holds(v: int) -> bool {
        i128::MIN <= v <= i128::MAX
    }

    proof fn holds_below(a: int, b: int) {
    }

    proof fn holds_small(v: int) {
    }

    fn zero() -> (r: Self)
        ensures
            r == 0,
    {
        0
    }

    fn one() -> (r: Self)
        ensures
            r == 1,
    {
        1
    }

    fn at_most(&self, other: &Self) -> (b: bool)
        ensures
            b == (*self <= *other),
    {
        *self <= *other
    }

    fn sum(&self, other: &Self) -> (r: Self)
        ensures
            r == *self + *other,
    {
        *self + *other
    }

    fn product(&self, other: &Self) -> (r: Self)
        ensures
            r == *self * *other,
    {
        *self * *other
    }

    fn checked_product(&self, other: &Self) -> (r: Option<Self>)
        ensures
            r is Some <==> i128::MIN <= *self * *other <= i128::MAX,
            r is Some ==> r.unwrap() == *self * *other,
    {
        self.checked_mul(*other)
    }
}

impl Factorial for i128 {
}

/// Of all factorials, `i128` holds those of 0 to 33.
pub proof fn factorials_in_i128(n: nat)
    ensures
        <i128 as Integer>::holds(factorial_of(n) as int) <==> n <= 33,
{
    factorial_values();
    factorial_is_positive(n);
    factorial_within(i128::MAX as int, 33, n);
}

impl Integer for isize {
    open spec fn value(&self) -> int {
        *self as int
    }

    open spec fn holds(v: int) -> bool {
        isize::MIN <= v <= isize::MAX
    }

    proof fn holds_below(a: int, b: int) {
    }

    proof fn holds_small(v: int) {
    }

    fn zero() -> (r: Self)
        ensures
            r == 0,
    {
        0
    }

    fn one() -> (r: Self)
        ensures
            r == 1,
    {
        1
    }

    fn at_most(&self, other: &Self) -> (b: bool)
        ensures
            b == (*self <= *other),
    {
        *self <= *other
    }

    fn sum(&self, other: &Self) -> (r: Self)
        ensures
            r == *self + *other,
    {
        *self + *other
    }

    fn product(&self, other: &Self) -> (r: Self)
        ensures
            r == *self * *other,
    {
        *self * *other
    }

    fn checked_product(&self, other: &Self) -> (r: Option<Self>)
        ensures
            r is Some <==> isize::MIN <= *self * *other <= isize::MAX,
            r is Some ==> r.unwrap() == *self * *other,
    {
        self.checked_mul(*other)
    }
}

impl Factorial for isize {
}

/// `isize` holds the factorials of 0 to 12 on every machine, and none beyond
/// that of 20.
pub proof fn factorials_in_isize(n: nat)
    ensures
        n <= 12 ==> <isize as Integer>::holds(factorial_of(n) as int),
        <isize as Integer>::holds(factorial_of(n) as int) ==> n <= 20,
{
    factorial_values();
    factorial_is_positive(n);
    factorial_within(0x7fff_ffff, 12, n);
    factorial_within(0x7fff_ffff_ffff_ffff, 20, n);
}

impl Integer for u8 {
    open spec fn value(&self) -> int {
        *self as int
    }

    open spec fn holds(v: int) -> bool {
        u8::MIN <= v <= u8::MAX
    }

    proof fn holds_below(a: int, b: int) {
    }

    proof fn holds_small(v: int) {
    }

    fn zero() -> (r: Self)
        ensures
            r == 0,
    {
        0
    }

    fn one() -> (r: Self)
        ensures
            r == 1,
    {
        1
    }

    fn at_most(&self, other: &Self) -> (b: bool)
        ensures
            b == (*self <= *other),
    {
        *self <= *other
    }

    fn sum(&self, other: &Self) -> (r: Self)
        ensures
            r == *self + *other,
    {
        *self + *other
    }

    fn product(&self, other: &Self) -> (r: Self)
        ensures
            r == *self * *other,
    {
        *self * *other
    }

    fn checked_product(&self, other: &Self) -> (r: Option<Self>)
        ensures
            r is Some <==> u8::MIN <= *self * *other <= u8::MAX,
            r is Some ==> r.unwrap() == *self * *other,
    {
        self.checked_mul(*other)
    }
}

impl Factorial for u8 {
}

/// Of all factorials, `u8` holds those of 0 to 5.
pub proof fn factorials_in_u8(n: nat)
    ensures
        <u8 as Integer>::holds(factorial_of(n) as int) <==> n <= 5,
{
    factorial_values();
    factorial_is_positive(n);
    factorial_within(u8::MAX as int, 5, n);
}

impl Integer for u16 {
    open spec fn value(&self) -> int {
        *self as int
    }

    open spec fn holds(v: int) -> bool {
        u16::MIN <= v <= u16::MAX
    }

    proof fn holds_below(a: int, b: int) {
    }

    proof fn holds_small(v: int) {
    }

    fn zero() -> (r: Self)
        ensures
            r == 0,
    {
        0
    }

    fn one() -> (r: Self)
        ensures
            r == 1,
    {
        1
    }

    fn at_most(&self, other: &Self) -> (b: bool)
        ensures
            b == (*self <= *other),
    {
        *self <= *other
    }

    fn sum(&self, other: &Self) -> (r: Self)
        ensures
            r == *self + *other,
    {
        *self + *other
    }

    fn product(&self, other: &Self) -> (r: Self)
        ensures
            r == *self * *other,
    {
        *self * *other
    }

    fn checked_product(&self, other: &Self) -> (r: Option<Self>)
        ensures
            r is Some <==> u16::MIN <= *self * *other <= u16::MAX,
            r is Some ==> r.unwrap() == *self * *other,
    {
        self.checked_mul(*other)
    }
}

impl Factorial for u16 {
}

/// Of all factorials, `u16` holds those of 0 to 8.
pub proof fn factorials_in_u16(n: nat)
    ensures
        <u16 as Integer>::holds(factorial_of(n) as int) <==> n <= 8,
{
    factorial_values();
    factorial_is_positive(n);
    factorial_within(u16::MAX as int, 8, n);
}

impl Integer for u32 {
    open spec fn value(&self) -> int {
        *self as int
    }

    open spec fn holds(v: int) -> bool {
        u32::MIN <= v <= u32::MAX
    }

    proof fn holds_below(a: int, b: int) {
    }

    proof fn holds_small(v: int) {
    }

    fn zero() -> (r: Self)
        ensures
            r == 0,
    {
        0
    }

    fn one() -> (r: Self)
        ensures
            r == 1,
    {
        1
    }

    fn at_most(&self, other: &Self) -> (b: bool)
        ensures
            b == (*self <= *other),
    {
        *self <= *other
    }

    fn sum(&self, other: &Self) -> (r: Self)
        ensures
            r == *self + *other,
    {
        *self + *other
    }

    fn product(&self, other: &Self) -> (r: Self)
        ensures
            r == *self * *other,
    {
        *self * *other
    }

    fn checked_product(&self, other: &Self) -> (r: Option<Self>)
        ensures
            r is Some <==> u32::MIN <= *self * *other <= u32::MAX,
            r is Some ==> r.unwrap() == *self * *other,
    {
        self.checked_mul(*other)
    }
}

impl Factorial for u32 {
}

/// Of all factorials, `u32` holds those of 0 to 12.
pub proof fn factorials_in_u32(n: nat)
    ensures
        <u32 as Integer>::holds(factorial_of(n) as int) <==> n <= 12,
{
    factorial_values();
    factorial_is_positive(n);
    factorial_within(u32::MAX as int, 12, n);
}

impl Integer for u64 {
    open spec fn value(&self) -> int {
        *self as int
    }

    open spec fn holds(v: int) -> bool {
        u64::MIN <= v <= u64::MAX
    }

    proof fn holds_below(a: int, b: int) {
    }

    proof fn holds_small(v: int) {
    }

    fn zero() -> (r: Self)
        ensures
            r == 0,
    {
        0
    }

    fn one() -> (r: Self)
        ensures
            r == 1,
    {
        1
    }

    fn at_most(&self, other: &Self) -> (b: bool)
        ensures
            b == (*self <= *other),
    {
        *self <= *other
    }

    fn sum(&self, other: &Self) -> (r: Self)
        ensures
            r == *self + *other,
    {
        *self + *other
    }

    fn product(&self, other: &Self) -> (r: Self)
        ensures
            r == *self * *other,
    {
        *self * *other
    }

    fn checked_product(&self, other: &Self) -> (r: Option<Self>)
        ensures
            r is Some <==> u64::MIN <= *self * *other <= u64::MAX,
            r is Some ==> r.unwrap() == *self * *other,
    {
        self.checked_mul(*other)
    }
}

impl Factorial for u64 {
}

/// Of all factorials, `u64` holds those of 0 to 20.
pub proof fn factorials_in_u64(n: nat)
    ensures
        <u64 as Integer>::holds(factorial_of(n) as int) <==> n <= 20,
{
    factorial_values();
    factorial_is_positive(n);
    factorial_within(u64::MAX as int, 20, n);
}

impl Integer for u128 {
    open spec fn value(&self) -> int {
        *self as int
    }

    open spec fn holds(v: int) -> bool {
        u128::MIN <= v <= u128::MAX
    }

    proof fn holds_below(a: int, b: int) {
    }

    proof fn holds_small(v: int) {
    }

    fn zero() -> (r: Self)
        ensures
            r == 0,
    {
        0
    }

    fn one() -> (r: Self)
        ensures
            r == 1,
    {
        1
    }

    fn at_most(&self, other: &Self) -> (b: bool)
        ensures
            b == (*self <= *other),
    {
        *self <= *other
    }

    fn sum(&self, other: &Self) -> (r: Self)
        ensures
            r == *self + *other,
    {
        *self + *other
    }

    fn product(&self, other: &Self) -> (r: Self)
        ensures
            r == *self * *other,
    {
        *self * *other
    }

    fn checked_product(&self, other: &Self) -> (r: Option<Self>)
        ensures
            r is Some <==> u128::MIN <= *self * *other <= u128::MAX,
            r is Some ==> r.unwrap() == *self * *other,
    {
        self.checked_mul(*other)
    }
}

impl Factorial for u128 {
}

/// Of all factorials, `u128` holds those of 0 to 34.
pub proof fn factorials_in_u128(n: nat)
    ensures
        <u128 as Integer>::holds(factorial_of(n) as int) <==> n <= 34,
{
    factorial_values();
    factorial_is_positive(n);
    factorial_within(u128::MAX as int, 34, n);
}

impl Integer for usize {
    open spec fn value(&self) -> int {
        *self as int
    }

    open spec fn holds(v: int) -> bool {
        usize::MIN <= v <= usize::MAX
    }

    proof fn holds_below(a: int, b: int) {
    }

    proof fn holds_small(v: int) {
    }

    fn zero() -> (r: Self)
        ensures
            r == 0,
    {
        0
    }

    fn one() -> (r: Self)
        ensures
            r == 1,
    {
        1
    }

    fn at_most(&self, other: &Self) -> (b: bool)
        ensures
            b == (*self <= *other),
    {
        *self <= *other
    }

    fn sum(&self, other: &Self) -> (r: Self)
        ensures
            r == *self + *other,
    {
        *self + *other
    }

    fn product(&self, other: &Self) -> (r: Self)
        ensures
            r == *self * *other,
    {
        *self * *other
    }

    fn checked_product(&self, other: &Self) -> (r: Option<Self>)
        ensures
            r is Some <==> usize::MIN <= *self * *other <= usize::MAX,
            r is Some ==> r.unwrap() == *self * *other,
    {
        self.checked_mul(*other)
    }
}

impl Factorial for usize {
}

/// `usize` holds the factorials of 0 to 12 on every machine, and none beyond
/// that of 20.
pub proof fn factorials_in_usize(n: nat)
    ensures
        n <= 12 ==> <usize as Integer>::holds(factorial_of(n) as int),
        <usize as Integer>::holds(factorial_of(n) as int) ==> n <= 20,
{
    factorial_values();
    factorial_is_positive(n);
    factorial_within(0xffff_ffff, 12, n);
    factorial_within(0xffff_ffff_ffff_ffff, 20, n);
}

} // verus!
