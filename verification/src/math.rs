//! The mathematical factorial and the facts about it that the library rests on.

use vstd::prelude::*;

verus! {

/// `n!`: the product of all positive integers up to `n`, and 1 for `n == 0`.
pub open spec fn factorial_of(n: nat) -> nat
    decreases n,
{
    if n == 0 {
        1
    } else {
        n * factorial_of((n - 1) as nat)
    }
}

/// The factorial of zero is one.
pub proof fn factorial_of_zero()
    ensures
        factorial_of(0) == 1,
{
}

/// Every factorial is at least one.
pub proof fn factorial_is_positive(n: nat)
    ensures
        factorial_of(n) >= 1,
    decreases n,
{
    if n > 0 {
        factorial_is_positive((n - 1) as nat);
        assert(n * factorial_of((n - 1) as nat) >= 1) by (nonlinear_arith)
            requires
                n >= 1,
                factorial_of((n - 1) as nat) >= 1,
        ;
    }
}

/// Each factorial after the first is the number times the factorial before it.
pub proof fn factorial_recurrence(n: nat)
    requires
        n >= 1,
    ensures
        factorial_of(n) == n * factorial_of((n - 1) as nat),
{
}

/// One step up never makes the factorial smaller, and makes it larger from 1 on.
pub proof fn factorial_step(n: nat)
    ensures
        factorial_of(n) <= factorial_of(n + 1),
        n >= 1 ==> factorial_of(n) < factorial_of(n + 1),
{
    factorial_is_positive(n);
    assert(factorial_of(n + 1) == (n + 1) * factorial_of(n));
    assert((n + 1) * factorial_of(n) >= factorial_of(n)) by (nonlinear_arith)
        requires
            factorial_of(n) >= 1,
    ;
    if n >= 1 {
        assert((n + 1) * factorial_of(n) > factorial_of(n)) by (nonlinear_arith)
            requires
                n >= 1,
                factorial_of(n) >= 1,
        ;
    }
}

/// The factorial never decreases: a smaller number has no larger factorial.
pub proof fn factorial_is_monotonic(n1: nat, n2: nat)
    requires
        n1 <= n2,
    ensures
        factorial_of(n1) <= factorial_of(n2),
    decreases n2 - n1,
{
    if n1 < n2 {
        factorial_step(n1);
        factorial_is_monotonic(n1 + 1, n2);
    }
}

/// The factorial grows strictly between two numbers, save from 0 to 1,
/// whose factorials are both 1.
pub proof fn factorial_is_strictly_monotonic(n1: nat, n2: nat)
    requires
        n1 < n2,
        !(n1 == 0 && n2 == 1),
    ensures
        factorial_of(n1) < factorial_of(n2),
{
    if n1 == 0 {
        factorial_step(1);
        factorial_is_monotonic(2, n2);
        assert(factorial_of(1) == 1 * factorial_of(0));
    } else {
        factorial_step(n1);
        factorial_is_monotonic(n1 + 1, n2);
    }
}

/// From 3 on, the factorial of a number exceeds the number itself.
pub proof fn factorial_exceeds_argument(n: nat)
    requires
        n >= 3,
    ensures
        factorial_of(n) > n,
    decreases n,
{
    if n == 3 {
        reveal_with_fuel(factorial_of, 4);
    } else {
        factorial_exceeds_argument((n - 1) as nat);
        assert(n * factorial_of((n - 1) as nat) > n) by (nonlinear_arith)
            requires
                n >= 4,
                factorial_of((n - 1) as nat) > n - 1,
        ;
    }
}

/// The factorials next to the largest values of the machine integers.
pub proof fn factorial_values()
    ensures
        factorial_of(5) == 120,
        factorial_of(6) == 720,
        factorial_of(7) == 5_040,
        factorial_of(8) == 40_320,
        factorial_of(9) == 362_880,
        factorial_of(12) == 479_001_600,
        factorial_of(13) == 6_227_020_800,
        factorial_of(20) == 2_432_902_008_176_640_000,
        factorial_of(21) == 51_090_942_171_709_440_000,
        factorial_of(33) == 8_683_317_618_811_886_495_518_194_401_280_000_000,
        factorial_of(34) == 295_232_799_039_604_140_847_618_609_643_520_000_000,
        factorial_of(35) == 10_333_147_966_386_144_929_666_651_337_523_200_000_000,
{
    assert(factorial_of(1) == 1 * factorial_of(0));
    assert(factorial_of(2) == 2 * factorial_of(1));
    assert(factorial_of(3) == 3 * factorial_of(2));
    assert(factorial_of(4) == 4 * factorial_of(3));
    assert(factorial_of(5) == 5 * factorial_of(4));
    assert(factorial_of(6) == 6 * factorial_of(5));
    assert(factorial_of(7) == 7 * factorial_of(6));
    assert(factorial_of(8) == 8 * factorial_of(7));
    assert(factorial_of(9) == 9 * factorial_of(8));
    assert(factorial_of(10) == 10 * factorial_of(9));
    assert(factorial_of(11) == 11 * factorial_of(10));
    assert(factorial_of(12) == 12 * factorial_of(11));
    assert(factorial_of(13) == 13 * factorial_of(12));
    assert(factorial_of(14) == 14 * factorial_of(13));
    assert(factorial_of(15) == 15 * factorial_of(14));
    assert(factorial_of(16) == 16 * factorial_of(15));
    assert(factorial_of(17) == 17 * factorial_of(16));
    assert(factorial_of(18) == 18 * factorial_of(17));
    assert(factorial_of(19) == 19 * factorial_of(18));
    assert(factorial_of(20) == 20 * factorial_of(19));
    assert(factorial_of(21) == 21 * factorial_of(20));
    assert(factorial_of(22) == 22 * factorial_of(21));
    assert(factorial_of(23) == 23 * factorial_of(22));
    assert(factorial_of(24) == 24 * factorial_of(23));
    assert(factorial_of(25) == 25 * factorial_of(24));
    assert(factorial_of(26) == 26 * factorial_of(25));
    assert(factorial_of(27) == 27 * factorial_of(26));
    assert(factorial_of(28) == 28 * factorial_of(27));
    assert(factorial_of(29) == 29 * factorial_of(28));
    assert(factorial_of(30) == 30 * factorial_of(29));
    assert(factorial_of(31) == 31 * factorial_of(30));
    assert(factorial_of(32) == 32 * factorial_of(31));
    assert(factorial_of(33) == 33 * factorial_of(32));
    assert(factorial_of(34) == 34 * factorial_of(33));
    assert(factorial_of(35) == 35 * factorial_of(34));
}

/// Where `max` lies between the factorials of `limit` and of `limit + 1`,
/// the factorials up to `max` are those of the numbers up to `limit`.
pub proof fn factorial_within(max: int, limit: nat, n: nat)
    requires
        factorial_of(limit) <= max < factorial_of(limit + 1),
    ensures
        factorial_of(n) <= max <==> n <= limit,
{
    if n <= limit {
        factorial_is_monotonic(n, limit);
    } else {
        factorial_is_monotonic(limit + 1, n);
    }
}

} // verus!
