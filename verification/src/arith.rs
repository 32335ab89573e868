//! Integer division that rounds toward negative infinity.
//!
//! Every quantity in this crate is a whole number of small units.  A
//! conversion along a ratio multiplies by it and rounds down once; the
//! conversion back takes the largest number that the first conversion does
//! not carry beyond the given one.  Both are monotone, and one undoes the
//! other wherever the units allow it.

use vstd::arithmetic::div_mod::{lemma_fundamental_div_mod, lemma_fundamental_div_mod_converse};
use vstd::prelude::*;

verus! {

/// The rational `n / d` rounded toward negative infinity, for `d != 0`.
pub open spec fn floor_div(n: int, d: int) -> int {
    if d > 0 {
        n / d
    } else {
        (-n) / (-d)
    }
}

/// `floor_div(n, d)` is an integer `q` with `q <= n / d < q + 1`.
pub proof fn lemma_floor_div_bounds(n: int, d: int)
    requires
        d != 0,
    ensures
        d > 0 ==> floor_div(n, d) * d <= n < (floor_div(n, d) + 1) * d,
        d < 0 ==> (floor_div(n, d) + 1) * d < n <= floor_div(n, d) * d,
{
    if d > 0 {
        let q = n / d;
        assert(q * d <= n < (q + 1) * d) by (nonlinear_arith)
            requires
                d > 0,
                q == n / d,
        ;
    } else {
        let e = -d;
        let q = (-n) / e;
        assert(q * e <= -n < (q + 1) * e) by (nonlinear_arith)
            requires
                e > 0,
                q == (-n) / e,
        ;
        assert(q * d == -(q * e) && (q + 1) * d == -((q + 1) * e)) by (nonlinear_arith)
            requires
                e == -d,
        ;
    }
}

/// A product is no larger in magnitude than the product of the bounds of
/// its factors.
pub proof fn lemma_mul_bound(x: int, y: int, x_bound: int, y_bound: int)
    by (nonlinear_arith)
    requires
        -x_bound <= x <= x_bound,
        -y_bound <= y <= y_bound,
    ensures
        -(x_bound * y_bound) <= x * y <= x_bound * y_bound,
{
}

/// The quotient is no larger in magnitude than the numerator.
pub proof fn lemma_floor_div_magnitude(n: int, d: int, bound: int)
    requires
        d != 0,
        -bound <= n <= bound,
    ensures
        -bound <= floor_div(n, d) <= bound,
{
    lemma_floor_div_bounds(n, d);
    let q = floor_div(n, d);
    if d > 0 {
        assert(-bound <= q <= bound) by (nonlinear_arith)
            requires
                d > 0,
                q * d <= n < (q + 1) * d,
                -bound <= n <= bound,
        ;
    } else {
        assert(-bound <= q <= bound) by (nonlinear_arith)
            requires
                d < 0,
                (q + 1) * d < n <= q * d,
                -bound <= n <= bound,
        ;
    }
}

/// Rounding down is monotone in the numerator.
pub proof fn lemma_floor_div_monotone(a: int, b: int, d: int)
    requires
        d > 0,
        a <= b,
    ensures
        floor_div(a, d) <= floor_div(b, d),
{
    lemma_floor_div_bounds(a, d);
    lemma_floor_div_bounds(b, d);
    let p = floor_div(a, d);
    let q = floor_div(b, d);
    assert(p <= q) by (nonlinear_arith)
        requires
            d > 0,
            a <= b,
            p * d <= a,
            b < (q + 1) * d,
    ;
}

/// Divides by a positive number and rounds toward negative infinity.
fn div_floor_positive(a: i128, b: i128) -> (q: i128)
    requires
        0 < b,
    ensures
        q == a as int / b as int,
{
    if a >= 0 {
        a / b
    } else {
        let q: i128 = a / b;
        let r: i128 = a % b;
        proof {
            let p = (-a) / b as int;
            let s = (-a) % b as int;
            assert(q == -p && r == -s);
            lemma_fundamental_div_mod(-(a as int), b as int);
            if s == 0 {
                assert(a == (-p) * b) by (nonlinear_arith)
                    requires
                        -a == b * p + s,
                        s == 0,
                ;
                lemma_fundamental_div_mod_converse(a as int, b as int, -p, 0);
            } else {
                assert(a == (-p - 1) * b + (b - s)) by (nonlinear_arith)
                    requires
                        -a == b * p + s,
                ;
                lemma_fundamental_div_mod_converse(a as int, b as int, -p - 1, b - s);
                assert(2 * p <= -a) by (nonlinear_arith)
                    requires
                        -a == b * p + s,
                        0 < s < b,
                        0 <= p,
                ;
            }
        }
        if r == 0 {
            q
        } else {
            q - 1
        }
    }
}

/// Divides and rounds toward negative infinity.
pub fn div_floor(n: i128, d: i128) -> (q: i128)
    requires
        d != 0,
        d < 0 ==> i128::MIN < n && i128::MIN < d,
    ensures
        q == floor_div(n as int, d as int),
{
    if d > 0 {
        div_floor_positive(n, d)
    } else {
        div_floor_positive(-n, -d)
    }
}

/// `floor(a * num / den)`, for a ratio `num / den` of positive constants.
pub fn scale_floor(a: i128, num: i128, den: i128) -> (r: i128)
    requires
        0 < num,
        0 < den,
        i128::MIN <= a * num <= i128::MAX,
    ensures
        r == scaled(a as int, num as int, den as int),
{
    div_floor(a * num, den)
}

/// `x` taken along the ratio `num / den`, rounded down.
pub open spec fn scaled(x: int, num: int, den: int) -> int {
    floor_div(x * num, den)
}

/// The largest number that `scaled` does not carry beyond `y`.
pub open spec fn unscaled(y: int, num: int, den: int) -> int {
    floor_div((y + 1) * den - 1, num)
}

/// `unscaled(y, ..)` is the largest `x` with `scaled(x, ..) <= y`.
pub proof fn lemma_unscaled_is_largest(x: int, y: int, num: int, den: int)
    requires
        0 < num,
        0 < den,
    ensures
        scaled(x, num, den) <= y <==> x <= unscaled(y, num, den),
{
    lemma_floor_div_bounds(x * num, den);
    lemma_floor_div_bounds((y + 1) * den - 1, num);
    let p = scaled(x, num, den);
    let q = unscaled(y, num, den);
    if p <= y {
        assert(x <= q) by (nonlinear_arith)
            requires
                0 < num,
                0 < den,
                p <= y,
                p * den <= x * num,
                x * num < (p + 1) * den,
                (y + 1) * den - 1 < (q + 1) * num,
        ;
    }
    if x <= q {
        assert(p <= y) by (nonlinear_arith)
            requires
                0 < num,
                0 < den,
                x <= q,
                p * den <= x * num,
                q * num <= (y + 1) * den - 1,
        ;
    }
}

/// Going along a ratio is monotone.
pub proof fn lemma_scaled_monotone(x: int, y: int, num: int, den: int)
    requires
        0 < num,
        0 < den,
        x <= y,
    ensures
        scaled(x, num, den) <= scaled(y, num, den),
{
    assert(x * num <= y * num) by (nonlinear_arith)
        requires
            x <= y,
            0 < num,
    ;
    lemma_floor_div_monotone(x * num, y * num, den);
}

/// Along a ratio of at least one, there and back ends where it began.
pub proof fn lemma_unscaled_of_scaled(x: int, num: int, den: int)
    requires
        0 < den <= num,
    ensures
        unscaled(scaled(x, num, den), num, den) == x,
{
    let y = scaled(x, num, den);
    lemma_unscaled_is_largest(x, y, num, den);
    lemma_unscaled_is_largest(x + 1, y, num, den);
    lemma_floor_div_bounds(x * num, den);
    lemma_floor_div_bounds((x + 1) * num, den);
    let z = scaled(x + 1, num, den);
    assert(z > y) by (nonlinear_arith)
        requires
            0 < den <= num,
            y * den <= x * num,
            (x + 1) * num < (z + 1) * den,
    ;
}

/// Along a ratio of at most one, back and there ends where it began.
pub proof fn lemma_scaled_of_unscaled(y: int, num: int, den: int)
    requires
        0 < num <= den,
    ensures
        scaled(unscaled(y, num, den), num, den) == y,
{
    let x = unscaled(y, num, den);
    lemma_unscaled_is_largest(x, y, num, den);
    lemma_unscaled_is_largest(x + 1, y, num, den);
    lemma_floor_div_bounds(x * num, den);
    lemma_floor_div_bounds((x + 1) * num, den);
    let p = scaled(x, num, den);
    let z = scaled(x + 1, num, den);
    assert(z <= p + 1) by (nonlinear_arith)
        requires
            0 < num <= den,
            x * num < (p + 1) * den,
            z * den <= (x + 1) * num,
    ;
}

/// The largest number that going along `num / den` does not carry beyond
/// `y`.
pub fn unscale_floor(y: i128, num: i128, den: i128) -> (r: i128)
    requires
        0 < num,
        0 < den,
        i128::MIN <= (y + 1) * den - 1 <= i128::MAX,
        i128::MIN <= y + 1 <= i128::MAX,
        i128::MIN <= (y + 1) * den <= i128::MAX,
    ensures
        r == unscaled(y as int, num as int, den as int),
{
    div_floor((y + 1) * den - 1, num)
}

} // verus!
