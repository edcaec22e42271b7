//! Fizzbuzz: the smallest possible smoke test of the toolchain.

use vstd::prelude::*;
use vstd::string::to_string_from_display_ensures;

verus! {

/// Whether 3 divides `x`.
pub fn divides_by_3(x: i64) -> (r: bool)
    ensures
        r == (x as int % 3 == 0),
{
    x % 3 == 0
}

/// Whether 5 divides `x`.
pub fn divides_by_5(x: i64) -> (r: bool)
    ensures
        r == (x as int % 5 == 0),
{
    x % 5 == 0
}

/// The word for `x`: "FizzBuzz" for a multiple of 15, "Fizz" for another
/// multiple of 3, "Buzz" for another multiple of 5, else `x` in decimal.
pub fn fizzbuzz_fmt(x: i64) -> (r: String)
    ensures
        x as int % 3 == 0 && x as int % 5 == 0 ==> r@ == "FizzBuzz"@,
        x as int % 3 == 0 && x as int % 5 != 0 ==> r@ == "Fizz"@,
        x as int % 3 != 0 && x as int % 5 == 0 ==> r@ == "Buzz"@,
        x as int % 3 != 0 && x as int % 5 != 0 ==> to_string_from_display_ensures::<i64>(&x, r),
{
    if divides_by_3(x) {
        if divides_by_5(x) {
            "FizzBuzz".to_string()
        } else {
            "Fizz".to_string()
        }
    } else if divides_by_5(x) {
        "Buzz".to_string()
    } else {
        x.to_string()
    }
}

} // verus!
