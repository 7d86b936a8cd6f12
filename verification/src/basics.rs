//! The small stand-alone exercises: a fixed greeting and a parity check.

use vstd::prelude::*;

verus! {

/// The greeting that the accompanying program prints.
pub fn say_hello() -> (r: String)
    ensures
        r@ == "Hello, world!"@,
{
    String::from_str("Hello, world!")
}

/// True exactly when `number` is divisible by two.
pub fn is_even(number: u32) -> (r: bool)
    ensures
        r == (number % 2 == 0),
{
    number % 2 == 0
}

} // verus!
