//! What a type must offer for the factorial to be computed on it.

use vstd::prelude::*;

verus! {

/// An integer type: a set of mathematical integers with zero, one, an order,
/// a sum and a product.
///
/// Contracts speak of a value through `value`, the mathematical integer that
/// it stands for, and of the type through `holds`, the integers that it can
/// represent.
pub trait Integer: Sized {
    /// The mathematical integer that `self` stands for.
    spec fn value(&self) -> int;

    /// Whether the type has a value that stands for `v`.
    spec fn holds(v: int) -> bool;

    /// Between zero and an integer that the type holds, it holds every integer.
    proof fn holds_below(a: int, b: int)
        requires
            0 <= a <= b,
            Self::holds(b),
        ensures
            Self::holds(a),
    ;

    /// Every type holds the integers from 0 to 127.
    proof fn holds_small(v: int)
        requires
            0 <= v <= 127,
        ensures
            Self::holds(v),
    ;

    /// The additive identity.
    fn zero() -> (r: Self)
        ensures
            r.value() == 0,
    ;

    /// The multiplicative identity.
    fn one() -> (r: Self)
        ensures
            r.value() == 1,
    ;

    /// Whether `self` is less than or equal to `other`.
    fn at_most(&self, other: &Self) -> (b: bool)
        ensures
            b == (self.value() <= other.value()),
    ;

    /// `self + other`, where the type holds it.
    fn sum(&self, other: &Self) -> (r: Self)
        requires
            Self::holds(self.value() + other.value()),
        ensures
            r.value() == self.value() + other.value(),
    ;

    /// `self * other`, where the type holds it.
    fn product(&self, other: &Self) -> (r: Self)
        requires
            Self::holds(self.value() * other.value()),
        ensures
            r.value() == self.value() * other.value(),
    ;

    /// `self * other` where the type holds it, and `None` where it does not.
    fn checked_product(&self, other: &Self) -> (r: Option<Self>)
        ensures
            r is Some <==> Self::holds(self.value() * other.value()),
            r is Some ==> r.unwrap().value() == self.value() * other.value(),
    ;
}

} // verus!
