//! A second entry point for addition.
use vstd::prelude::*;

use crate::arithmetic::{fits_i32, sum};

verus! {

/// Adds `a` and `b`; behaves exactly as `add`.
pub fn combined_add(a: i32, b: i32) -> (r: i32)
    requires
        fits_i32(sum(a as int, b as int)),
    ensures
        r == sum(a as int, b as int),
{
    a + b
}

} // verus!
