//! Sums, products and parity of `i32` values.
//!
//! Overflow policy: the result of an operation must be representable as an
//! `i32`; callers are required to stay within that range, and the library
//! never wraps or saturates.
use vstd::prelude::*;

verus! {

/// The mathematical sum of two integers.
pub open spec fn sum(a: int, b: int) -> int {
    a + b
}

/// The mathematical product of two integers.
pub open spec fn product(a: int, b: int) -> int {
    a * b
}

/// Whether `n` is divisible by two (zero and negative values included).
pub open spec fn even(n: int) -> bool {
    n % 2 == 0
}

/// Whether `n` can be held by an `i32`.
pub open spec fn fits_i32(n: int) -> bool {
    i32::MIN <= n <= i32::MAX
}

/// Adds `a` and `b`.
pub fn add(a: i32, b: i32) -> (r: i32)
    requires
        fits_i32(sum(a as int, b as int)),
    ensures
        r == sum(a as int, b as int),
{
    a + b
}

/// Multiplies `a` by `b`.
pub fn multiply(a: i32, b: i32) -> (r: i32)
    requires
        fits_i32(product(a as int, b as int)),
    ensures
        r == product(a as int, b as int),
{
    a * b
}

/// Tells whether `n` is exactly divisible by two.
pub fn is_even(n: i32) -> (r: bool)
    ensures
        r == even(n as int),
{
    n % 2 == 0
}

/// Addition is commutative, and zero is its identity.
pub proof fn lemma_add_commutative_identity(a: i32, b: i32)
    ensures
        sum(a as int, b as int) == sum(b as int, a as int),
        sum(a as int, 0) == a,
{
}

/// Multiplication is commutative, and zero absorbs any factor.
pub proof fn lemma_multiply_commutative_zero(a: i32, b: i32)
    ensures
        product(a as int, b as int) == product(b as int, a as int),
        product(a as int, 0) == 0,
{
    assert(a * b == b * a) by (nonlinear_arith);
}

/// A value and its negation have the same parity.
pub proof fn lemma_even_negation(n: i32)
    ensures
        even(n as int) == even(-n),
{
}

} // verus!
