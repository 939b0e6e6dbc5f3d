//! The unit of length, and the range in which the game's arithmetic is safe.

use vstd::prelude::*;

verus! {

/// The number of base units in a pixel. A length is a whole number of equal
/// parts of a base unit; how many parts make a unit is the grain of the
/// entity that the length belongs to. At grain 1 a length counts thousandths
/// of a pixel, which holds every tuning constant of the game as a whole
/// number.
pub const UNITS_PER_PIXEL: i128 = 1000;

/// Half of `UNITS_PER_PIXEL`.
pub const HALF_PIXEL: i128 = 500;

/// The largest magnitude of a coordinate or a speed with which one tick of
/// the game is known to stay within machine integers.
pub const LIMIT: i128 = 1_000_000_000_000_000_000_000_000_000;

/// The largest grain with which one tick of the game is known to stay within
/// machine integers.
pub const GRAIN_LIMIT: i128 = 1_000_000_000_000_000;

/// The largest magnitude of a playfield's width or height, in base units,
/// with which one tick of the game is known to stay within machine integers.
pub const FIELD_LIMIT: i128 = 10_000_000_000_000;

/// The quotient of `n` by a positive `d`, rounded toward zero.
pub open spec fn quotient_toward_zero(n: int, d: int) -> int
    recommends
        d > 0,
{
    if n >= 0 {
        n / d
    } else {
        -((-n) / d)
    }
}

/// Rounding toward zero loses less than one, and nothing where `d` divides
/// `n`; the quotient has the sign of `n` or is zero.
pub proof fn lemma_quotient_toward_zero(n: int, d: int)
    requires
        d > 0,
    ensures
        n >= 0 ==> 0 <= n - d * quotient_toward_zero(n, d) < d,
        n <= 0 ==> 0 <= d * quotient_toward_zero(n, d) - n < d,
        n % d == 0 ==> d * quotient_toward_zero(n, d) == n,
        quotient_toward_zero(-n, d) == -quotient_toward_zero(n, d),
{
    vstd::arithmetic::div_mod::lemma_fundamental_div_mod(n, d);
    vstd::arithmetic::div_mod::lemma_fundamental_div_mod(-n, d);
    vstd::arithmetic::div_mod::lemma_mod_bound(n, d);
    vstd::arithmetic::div_mod::lemma_mod_bound(-n, d);
    if n % d == 0 && n < 0 {
        let q = n / d;
        assert(-n == (-q) * d + 0) by (nonlinear_arith)
            requires
                n == d * q + 0,
        ;
        vstd::arithmetic::div_mod::lemma_fundamental_div_mod_converse(-n, d, -q, 0);
    }
    assert(d * -((-n) / d) == -(d * ((-n) / d))) by (nonlinear_arith);
}

/// A product is bounded by the product of the bounds of its factors.
pub proof fn lemma_product_within(a: int, b: int, bound_a: int, bound_b: int)
    requires
        -bound_a <= a <= bound_a,
        -bound_b <= b <= bound_b,
    ensures
        -(bound_a * bound_b) <= a * b <= bound_a * bound_b,
{
    assert(-(bound_a * bound_b) <= a * b <= bound_a * bound_b) by (nonlinear_arith)
        requires
            -bound_a <= a <= bound_a,
            -bound_b <= b <= bound_b,
    ;
}

/// The quotient of `n` by `d` where `d` divides `n`, and nothing where it
/// does not.
pub fn exact_quotient(n: i128, d: i128) -> (q: Option<i128>)
    requires
        d > 0,
        n > i128::MIN,
    ensures
        q.is_some() == (n % d == 0),
        q.is_some() ==> q.unwrap() * d == n,
{
    proof {
        lemma_quotient_toward_zero(n as int, d as int);
        vstd::arithmetic::div_mod::lemma_fundamental_div_mod(n as int, d as int);
        vstd::arithmetic::div_mod::lemma_fundamental_div_mod(-n as int, d as int);
        vstd::arithmetic::div_mod::lemma_mod_bound(n as int, d as int);
        vstd::arithmetic::div_mod::lemma_mod_bound(-n as int, d as int);
    }
    let divisor: u128 = d as u128;
    if n >= 0 {
        let size: u128 = n as u128;
        if size % divisor == 0 {
            let q: u128 = size / divisor;
            assert(q * divisor == n) by (nonlinear_arith)
                requires
                    n == divisor * q + 0,
            ;
            assert(q <= n) by (nonlinear_arith)
                requires
                    q * divisor == n,
                    divisor >= 1,
                    q >= 0,
            ;
            Some(q as i128)
        } else {
            None
        }
    } else {
        let size: u128 = (-n) as u128;
        if size % divisor == 0 {
            let q: u128 = size / divisor;
            assert(q * divisor == -n) by (nonlinear_arith)
                requires
                    -n == divisor * q + 0,
            ;
            assert(q <= -n) by (nonlinear_arith)
                requires
                    q * divisor == -n,
                    divisor >= 1,
                    q >= 0,
            ;
            assert((-q) * d == n) by (nonlinear_arith)
                requires
                    q * d == -n,
            ;
            assert(n % d == 0) by {
                vstd::arithmetic::div_mod::lemma_fundamental_div_mod_converse(
                    n as int,
                    d as int,
                    -(q as int),
                    0,
                );
            }
            Some(-(q as i128))
        } else {
            assert(n % d != 0) by {
                if n % d == 0 {
                    let k = n as int / d as int;
                    assert(-n == (-k) * d + 0) by (nonlinear_arith)
                        requires
                            n == d * k + 0,
                    ;
                    vstd::arithmetic::div_mod::lemma_fundamental_div_mod_converse(
                        -n as int,
                        d as int,
                        -k,
                        0,
                    );
                }
            }
            None
        }
    }
}

/// The quotient of `n` by `d`, rounded toward zero.
pub fn rounded_quotient(n: i128, d: i128) -> (q: i128)
    requires
        d > 0,
        n > i128::MIN,
    ensures
        q == quotient_toward_zero(n as int, d as int),
{
    let divisor: u128 = d as u128;
    if n >= 0 {
        let size: u128 = n as u128;
        let q: u128 = size / divisor;
        assert(q <= size) by {
            vstd::arithmetic::div_mod::lemma_div_is_ordered_by_denominator(
                size as int,
                1,
                divisor as int,
            );
        }
        q as i128
    } else {
        let size: u128 = (-n) as u128;
        let q: u128 = size / divisor;
        assert(q <= size) by {
            vstd::arithmetic::div_mod::lemma_div_is_ordered_by_denominator(
                size as int,
                1,
                divisor as int,
            );
        }
        -(q as i128)
    }
}

} // verus!
