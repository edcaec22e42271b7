//! Number puzzles: smallest factors, reversed digits, common multiples.

use vstd::prelude::*;

verus! {

/// The digits of `n` in reverse order, pushed onto the digits of `acc`.
pub open spec fn reverse_digits(n: nat, acc: nat) -> nat
    decreases n,
{
    if n == 0 {
        acc
    } else {
        reverse_digits(n / 10, acc * 10 + n % 10)
    }
}

/// Pushing digits never shrinks the accumulator.
proof fn lemma_reverse_digits_grows(n: nat, acc: nat)
    ensures
        reverse_digits(n, acc) >= acc,
    decreases n,
{
    if n != 0 {
        lemma_reverse_digits_grows(n / 10, acc * 10 + n % 10);
    }
}

/// The number whose decimal digits are those of `to_rev` in reverse order.
pub fn reverse_int(to_rev: i64) -> (r: i64)
    requires
        to_rev >= 0,
        reverse_digits(to_rev as nat, 0) <= i64::MAX,
    ensures
        r == reverse_digits(to_rev as nat, 0),
{
    let mut rem: i64 = to_rev;
    let mut acc: i64 = 0;
    while rem != 0
        invariant
            rem >= 0,
            acc >= 0,
            reverse_digits(rem as nat, acc as nat) == reverse_digits(to_rev as nat, 0),
            reverse_digits(to_rev as nat, 0) <= i64::MAX,
        decreases rem,
    {
        proof {
            lemma_reverse_digits_grows((rem / 10) as nat, (acc * 10 + rem % 10) as nat);
        }
        acc = acc * 10 + rem % 10;
        rem = rem / 10;
    }
    acc
}

/// Whether `number` reads the same in both directions.
pub fn is_palindrome(number: i64) -> (r: bool)
    requires
        number >= 0,
        reverse_digits(number as nat, 0) <= i64::MAX,
    ensures
        r == (number == reverse_digits(number as nat, 0)),
{
    number == reverse_int(number)
}

/// A number and its negation are divisible by the same numbers.
proof fn lemma_remainder_zero(x: int, d: int)
    requires
        d > 0,
    ensures
        (x % d == 0) == ((-x) % d == 0),
{
    vstd::arithmetic::div_mod::lemma_fundamental_div_mod(x, d);
    vstd::arithmetic::div_mod::lemma_fundamental_div_mod(-x, d);
    if x % d == 0 {
        assert(-x == (-(x / d)) * d + 0) by (nonlinear_arith)
            requires
                x == d * (x / d),
        ;
        vstd::arithmetic::div_mod::lemma_fundamental_div_mod_converse(-x, d, -(x / d), 0);
    }
    if (-x) % d == 0 {
        assert(x == (-((-x) / d)) * d + 0) by (nonlinear_arith)
            requires
                -x == d * ((-x) / d),
        ;
        vstd::arithmetic::div_mod::lemma_fundamental_div_mod_converse(x, d, -((-x) / d), 0);
    }
}

/// Whether every number from 2 to `start_mult` divides `test_val`.
pub fn test_val_recursive(test_val: i64, start_mult: i64) -> (r: bool)
    requires
        start_mult >= 1,
    ensures
        r == (forall|k: int| 2 <= k <= start_mult ==> #[trigger] (test_val as int % k) == 0),
    decreases start_mult,
{
    if start_mult == 1 {
        true
    } else if test_val % start_mult == 0 {
        proof {
            lemma_remainder_zero(test_val as int, start_mult as int);
        }
        test_val_recursive(test_val, start_mult - 1)
    } else {
        proof {
            lemma_remainder_zero(test_val as int, start_mult as int);
        }
        false
    }
}

/// The smallest factor of `to_factor` that is at least 2, with its cofactor.
/// Numbers below 2 have no such factor and are returned twice.
pub fn min_factorize(to_factor: usize) -> (r: (usize, usize))
    ensures
        to_factor < 2 ==> r == (to_factor, to_factor),
        to_factor >= 2 ==> 2 <= r.0 <= to_factor && r.0 * r.1 == to_factor && forall|k: int|
            2 <= k < r.0 ==> #[trigger] (to_factor as int % k) != 0,
{
    if to_factor < 2 {
        return (to_factor, to_factor);
    }
    let mut start_at: usize = 2;
    while to_factor % start_at != 0
        invariant
            2 <= start_at <= to_factor,
            forall|k: int| 2 <= k < start_at ==> #[trigger] (to_factor as int % k) != 0,
        decreases to_factor - start_at,
    {
        proof {
            assert(start_at < to_factor) by {
                if start_at == to_factor {
                    assert(to_factor as int % (start_at as int) == 0) by (nonlinear_arith)
                        requires
                            start_at == to_factor,
                            start_at >= 2,
                    ;
                }
            }
        }
        start_at += 1;
    }
    proof {
        vstd::arithmetic::div_mod::lemma_fundamental_div_mod(to_factor as int, start_at as int);
    }
    (start_at, to_factor / start_at)
}

} // verus!
