//! Factorials of the machine integers and of big integers, with proofs.
//!
//! `Factorial::factorial` computes `n!` by repeated multiplication. Its
//! contract is stated over `math::factorial_of`, the mathematical factorial.

use vstd::prelude::*;

pub mod big;
pub mod integer;
pub mod math;
pub mod primitive;

use crate::integer::Integer;
use crate::math::{factorial_exceeds_argument, factorial_is_monotonic, factorial_of};

verus! {

/// A type that holds the factorial of a number holds the number that follows it.
pub proof fn holds_successor<T: Integer>(n: nat)
    requires
        T::holds(factorial_of(n) as int),
    ensures
        T::holds(n as int + 1),
{
    if n >= 3 {
        factorial_exceeds_argument(n);
        T::holds_below(n as int + 1, factorial_of(n) as int);
    } else {
        T::holds_small(n as int + 1);
    }
}

/// The factorial, on every integer type.
pub trait Factorial: Integer {
    /// Calculates the factorial of an integer: `n!`, with `0! == 1`.
    ///
    /// The factorial of a negative number does not exist, and the result must
    /// be one that the type holds: nothing here wraps or saturates.
    fn factorial(&self) -> (fact: Self)
        requires
            self.value() >= 0,
            Self::holds(factorial_of(self.value() as nat) as int),
        ensures
            fact.value() == factorial_of(self.value() as nat),
    {
        let mut fact = Self::one();
        let mut i = Self::one();
        while i.at_most(self)
            invariant
                self.value() >= 0,
                Self::holds(factorial_of(self.value() as nat) as int),
                1 <= i.value() <= self.value() + 1,
                fact.value() == factorial_of((i.value() - 1) as nat),
            decreases self.value() + 1 - i.value(),
        {
            let one = Self::one();
            proof {
                let n = self.value() as nat;
                let k = i.value() as nat;
                assert(fact.value() * i.value() == factorial_of(k)) by (nonlinear_arith)
                    requires
                        fact.value() == factorial_of((k - 1) as nat),
                        i.value() == k,
                        factorial_of(k) == k * factorial_of((k - 1) as nat),
                ;
                factorial_is_monotonic(k, n);
                Self::holds_below(factorial_of(k) as int, factorial_of(n) as int);
                holds_successor::<Self>(k);
            }
            fact = fact.product(&i);
            i = i.sum(&one);
        }
        fact
    }

    /// Calculates the factorial of an integer where it exists and the type
    /// holds it, and returns `None` where the integer is negative or the type
    /// does not hold its factorial.
    fn checked_factorial(&self) -> (r: Option<Self>)
        ensures
            r is Some <==> self.value() >= 0 && Self::holds(
                factorial_of(self.value() as nat) as int,
            ),
            r is Some ==> r.unwrap().value() == factorial_of(self.value() as nat),
    {
        if !Self::zero().at_most(self) {
            return None;
        }
        let mut fact = Self::one();
        let mut i = Self::one();
        proof {
            Self::holds_small(1);
        }
        while i.at_most(self)
            invariant
                self.value() >= 0,
                1 <= i.value() <= self.value() + 1,
                fact.value() == factorial_of((i.value() - 1) as nat),
                Self::holds(factorial_of((i.value() - 1) as nat) as int),
            decreases self.value() + 1 - i.value(),
        {
            let one = Self::one();
            proof {
                let k = i.value() as nat;
                assert(fact.value() * i.value() == factorial_of(k)) by (nonlinear_arith)
                    requires
                        fact.value() == factorial_of((k - 1) as nat),
                        i.value() == k,
                        factorial_of(k) == k * factorial_of((k - 1) as nat),
                ;
            }
            match fact.checked_product(&i) {
                Some(product) => {
                    fact = product;
                },
                None => {
                    proof {
                        let n = self.value() as nat;
                        let k = i.value() as nat;
                        factorial_is_monotonic(k, n);
                        if Self::holds(factorial_of(n) as int) {
                            Self::holds_below(factorial_of(k) as int, factorial_of(n) as int);
                        }
                    }
                    return None;
                },
            }
            proof {
                holds_successor::<Self>(i.value() as nat);
            }
            i = i.sum(&one);
        }
        Some(fact)
    }
}

} // verus!
