//! Basic arithmetic on `i32`: sums, products and parity, each with its
//! mathematical meaning stated and proved.

pub mod arithmetic;
pub mod combined;

pub use arithmetic::{add, is_even, multiply};
pub use combined::combined_add;
