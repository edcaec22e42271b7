//! Small building blocks: swapping, applying functions, borrowing.

use vstd::prelude::*;
use crate::numeric::hi;
use crate::numeric::lo;

verus! {

/// The two values, exchanged.
pub fn swap_example_1(a: i64, b: i64) -> (r: (i64, i64))
    ensures
        r == (b, a),
{
    (b, a)
}

/// The two values of any one type, exchanged.
pub fn swap_example_2<T>(a: T, b: T) -> (r: (T, T))
    ensures
        r == (b, a),
{
    (b, a)
}

/// Calls `f` on `n`.
pub fn apply_1<F: Fn(i64) -> i64>(f: F, n: i64) -> (r: i64)
    requires
        f.requires((n,)),
    ensures
        f.ensures((n,), r),
{
    f(n)
}

/// The square of `n`.
pub fn square(n: i64) -> (r: i64)
    requires
        n * n <= i64::MAX,
    ensures
        r == n * n,
{
    proof {
        assert(n * n >= 0) by (nonlinear_arith);
    }
    n * n
}

/// Calls `f` on a value of any type.
pub fn apply_2<T, F: Fn(T) -> T>(f: F, n: T) -> (r: T)
    requires
        f.requires((n,)),
    ensures
        f.ensures((n,), r),
{
    f(n)
}

/// Orders a pair, larger first.
pub fn sort_double(a: i64, b: i64) -> (r: (i64, i64))
    ensures
        r.0 == hi(a as int, b as int),
        r.1 == lo(a as int, b as int),
{
    if a < b { (b, a) } else { (a, b) }
}

/// Calls `f` on both values and orders the results, larger first.
pub fn sort_apply<F: Fn(i64) -> i64>(f: F, a: i64, b: i64) -> (r: (i64, i64))
    requires
        f.requires((a,)),
        f.requires((b,)),
    ensures
        exists|fa: i64, fb: i64|
            f.ensures((a,), fa) && f.ensures((b,), fb) && r.0 == hi(fa as int, fb as int) && r.1
                == lo(fa as int, fb as int),
{
    let fa = f(a);
    let fb = f(b);
    sort_double(fa, fb)
}

/// Twice `x`.
pub fn double(x: i64) -> (r: i64)
    requires
        i64::MIN <= x * 2 <= i64::MAX,
    ensures
        r == x * 2,
{
    x * 2
}

/// The value itself.
pub fn noop<T>(x: T) -> (r: T)
    ensures
        r == x,
{
    x
}

/// The byte that minus one wraps to.
pub fn unsigned() -> (r: u8)
    ensures
        r == 255,
{
    0u8.wrapping_sub(1)
}

/// A constant.
pub fn constant_example() -> (r: i64)
    ensures
        r == 123,
{
    let x: i64 = 123;
    x
}

/// Doubles a borrowed value in place.
pub fn vandalize_param(x: &mut i64)
    requires
        i64::MIN <= *old(x) * 2 <= i64::MAX,
    ensures
        *final(x) == *old(x) * 2,
{
    let y: i64 = *x * 2;
    *x = y;
}

/// Lends out a boxed 10 to be doubled.
pub fn lend_param() -> (r: i64)
    ensures
        r == 20,
{
    let mut x: Box<i64> = Box::new(10);
    let mut inner: i64 = *x;
    vandalize_param(&mut inner);
    *x = inner;
    *x
}

/// Doubles a borrowed value in place, by way of a local.
pub fn vandalize_param2(x: &mut i64)
    requires
        i64::MIN <= *old(x) * 2 <= i64::MAX,
    ensures
        *final(x) == *old(x) * 2,
{
    let mut y: i64 = *x * 2;
    let z: &mut i64 = &mut y;
    *x = *z;
}

/// Lends out a local 15 to be doubled.
pub fn lend_param2() -> (r: i64)
    ensures
        r == 30,
{
    let mut x: i64 = 15;
    vandalize_param2(&mut x);
    x
}

} // verus!
