//! The factorial function: its mathematical definition, how a 32-bit signed
//! integer wraps around it, and the executable function that computes it.

use vstd::prelude::*;
use vstd::arithmetic::div_mod::{lemma_mod_sub_multiples_vanish, lemma_mod_twice, lemma_mul_mod_noop_left};

verus! {

/// The largest argument whose factorial a 32-bit signed integer holds.
pub const MAX_EXACT: i32 = 12;

/// The product of the integers from one up to `n`. The empty product is one,
/// so zero and one both give one.
pub open spec fn factorial(n: nat) -> nat
    decreases n,
{
    if n <= 1 {
        1
    } else {
        n * factorial((n - 1) as nat)
    }
}

/// The 32-bit signed integer that is congruent to `x` modulo two to the
/// thirty-second: what two's-complement arithmetic keeps of `x`.
pub open spec fn wrap_i32(x: int) -> int {
    let r = x % 0x1_0000_0000;
    if r > 0x7fff_ffff {
        r - 0x1_0000_0000
    } else {
        r
    }
}

/// Every factorial but the first is its argument times the one before.
pub proof fn lemma_factorial_step(n: nat)
    requires
        n >= 1,
    ensures
        factorial(n) == n * factorial((n - 1) as nat),
{
    if n == 1 {
        assert(factorial(0) == 1);
        assert(factorial(1) == 1);
    }
}

/// The factorials that a 32-bit signed integer holds, one by one.
pub proof fn lemma_factorial_values()
    ensures
        factorial(0) == 1,
        factorial(1) == 1,
        factorial(2) == 2,
        factorial(3) == 6,
        factorial(4) == 24,
        factorial(5) == 120,
        factorial(6) == 720,
        factorial(7) == 5040,
        factorial(8) == 40320,
        factorial(9) == 362880,
        factorial(10) == 3628800,
        factorial(11) == 39916800,
        factorial(12) == 479001600,
{
    reveal_with_fuel(factorial, 13);
}

/// Up to `MAX_EXACT` a factorial is positive and fits a 32-bit signed integer.
pub proof fn lemma_factorial_fits(n: nat)
    requires
        n <= MAX_EXACT,
    ensures
        1 <= factorial(n) <= i32::MAX,
{
    lemma_factorial_values();
}

/// Wrapping lands in the range of a 32-bit signed integer and keeps the
/// residue modulo two to the thirty-second.
pub proof fn lemma_wrap_i32_congruent(x: int)
    ensures
        i32::MIN <= wrap_i32(x) <= i32::MAX,
        wrap_i32(x) % 0x1_0000_0000 == x % 0x1_0000_0000,
{
    let r = x % 0x1_0000_0000;
    lemma_mod_twice(x, 0x1_0000_0000);
    lemma_mod_sub_multiples_vanish(r, 0x1_0000_0000);
}

/// Wrapping changes nothing in the range of a 32-bit signed integer.
pub proof fn lemma_wrap_i32_exact(x: int)
    requires
        i32::MIN <= x <= i32::MAX,
    ensures
        wrap_i32(x) == x,
{
}

/// Wrapping a factor before the multiplication gives the same wrapped product
/// as wrapping only once, at the end.
pub proof fn lemma_wrap_i32_mul(x: int, y: int)
    ensures
        wrap_i32(wrap_i32(x) * y) == wrap_i32(x * y),
{
    lemma_wrap_i32_congruent(x);
    lemma_mul_mod_noop_left(wrap_i32(x), y, 0x1_0000_0000);
    lemma_mul_mod_noop_left(x, y, 0x1_0000_0000);
}

/// The wrapped factorial obeys the recurrence of the factorial itself, with
/// the product wrapped at every step: from one on, it is what wraps around of
/// the wrapped factorial before it times the argument.
pub proof fn lemma_wrapped_step(n: nat)
    requires
        n >= 1,
    ensures
        wrap_i32(factorial(n) as int) == wrap_i32(
            wrap_i32(factorial((n - 1) as nat) as int) * n,
        ),
{
    let before = factorial((n - 1) as nat) as int;
    lemma_factorial_step(n);
    lemma_wrap_i32_mul(before, n as int);
    assert(before * n == n * before) by (nonlinear_arith);
}

/// The factorial of `a` as a 32-bit signed integer.
///
/// From zero to `MAX_EXACT` the result is the factorial itself. Beyond that
/// the product no longer fits, and the result is what wraps around of it. A
/// negative argument has no factorial and is not admitted.
pub fn fact(a: i32) -> (r: i32)
    requires
        a >= 0,
    ensures
        r == wrap_i32(factorial(a as nat) as int),
        a <= MAX_EXACT ==> r == factorial(a as nat),
{
    let mut acc: i32 = 1;
    let mut i: i32 = 1;
    proof {
        lemma_factorial_values();
    }
    while i < a
        invariant
            1 <= i,
            i <= a || i == 1,
            acc == wrap_i32(factorial(i as nat) as int),
        decreases a - i,
    {
        i = i + 1;
        proof {
            lemma_wrapped_step(i as nat);
        }
        acc = acc.wrapping_mul(i);
    }
    proof {
        lemma_factorial_values();
        if a <= MAX_EXACT {
            lemma_factorial_fits(a as nat);
            lemma_wrap_i32_exact(factorial(a as nat) as int);
        }
    }
    acc
}

} // verus!
