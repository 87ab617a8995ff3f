//! Integer arithmetic for fixed-point numbers: floor division, floor-modulo
//! and the integer square root, with the bounds that rounding obeys.

use vstd::prelude::*;

verus! {

/// Floor-modulo: the representative of `value` in `[0, modulus)`.
pub open spec fn wrapped(value: int, modulus: int) -> int {
    value % modulus
}

/// Wraps `value` into `[0, modulus)` with floor-modulo, so that negative
/// values come back in from the far side.
pub fn wrap(value: i64, modulus: i64) -> (r: i64)
    requires
        modulus > 0,
    ensures
        r == wrapped(value as int, modulus as int),
        0 <= r < modulus,
{
    match value.checked_rem_euclid(modulus) {
        Some(r) => r,
        // Not reached: the modulus is positive.
        None => 0,
    }
}

/// A quotient by a positive divisor lies between zero and the dividend.
proof fn lemma_div_floor_bounds(value: int, divisor: int)
    by (nonlinear_arith)
    requires
        divisor > 0,
    ensures
        value >= 0 ==> 0 <= value / divisor <= value,
        value < 0 ==> value <= value / divisor < 0,
{
}

/// Division that rounds toward negative infinity.
pub fn div_floor(value: i64, divisor: i64) -> (r: i64)
    requires
        divisor > 0,
    ensures
        r == value as int / divisor as int,
{
    proof {
        lemma_div_floor_bounds(value as int, divisor as int);
    }
    match value.checked_div_euclid(divisor) {
        Some(r) => r,
        // Not reached: the divisor is positive.
        None => 0,
    }
}

/// A product is bounded by the product of the bounds of its factors.
pub proof fn lemma_product_bound(a: int, b: int, la: int, lb: int)
    by (nonlinear_arith)
    requires
        -la <= a <= la,
        -lb <= b <= lb,
    ensures
        -(la * lb) <= a * b <= la * lb,
{
}

/// A number and its negation have the same square.
pub proof fn lemma_square_of_negation(a: int)
    by (nonlinear_arith)
    ensures
        (-a) * (-a) == a * a,
{
}

/// Rounding `numerator / divisor` down moves the square of the numerator by
/// at most `divisor^2 * (2 * bound + 1)`, where `bound` limits the quotient.
pub proof fn lemma_floor_square_gap(numerator: int, divisor: int, bound: int)
    requires
        divisor > 0,
        bound >= 0,
        -(bound * divisor) <= numerator <= bound * divisor,
    ensures
        -bound <= numerator / divisor <= bound,
        -(divisor * divisor * (2 * bound + 1)) <= numerator * numerator - (numerator / divisor)
            * (numerator / divisor) * (divisor * divisor) <= divisor * divisor * (2 * bound + 1),
{
    let q = numerator / divisor;
    let e = numerator % divisor;
    vstd::arithmetic::div_mod::lemma_fundamental_div_mod(numerator, divisor);
    assert(numerator == divisor * q + e);
    assert(0 <= e < divisor);
    assert(-bound <= q <= bound) by (nonlinear_arith)
        requires
            numerator == divisor * q + e,
            0 <= e < divisor,
            divisor > 0,
            bound >= 0,
            -(bound * divisor) <= numerator <= bound * divisor,
    ;
    assert(-(divisor * divisor * (2 * bound + 1)) <= numerator * numerator - q * q * (divisor
        * divisor) <= divisor * divisor * (2 * bound + 1)) by (nonlinear_arith)
        requires
            numerator == divisor * q + e,
            0 <= e < divisor,
            divisor > 0,
            bound >= 0,
            -bound <= q <= bound,
            -(bound * divisor) <= numerator <= bound * divisor,
    ;
}

/// Whether `root` is the integer square root of `n`, rounded down.
pub open spec fn is_integer_sqrt(root: int, n: int) -> bool {
    0 <= root && root * root <= n < (root + 1) * (root + 1)
}

/// The integer square root of `n`, rounded down.
pub open spec fn integer_sqrt(n: int) -> int {
    choose|root: int| is_integer_sqrt(root, n)
}

/// At most one number is the integer square root of `n`.
pub proof fn lemma_integer_sqrt_unique(a: int, b: int, n: int)
    by (nonlinear_arith)
    requires
        is_integer_sqrt(a, n),
        is_integer_sqrt(b, n),
    ensures
        a == b,
{
}

/// Finds the integer square root of `n` by counting up from zero.
proof fn integer_sqrt_witness(n: int) -> (root: int)
    requires
        n >= 0,
    ensures
        is_integer_sqrt(root, n),
    decreases n,
{
    if n == 0 {
        0
    } else {
        let below = integer_sqrt_witness(n - 1);
        assert(is_integer_sqrt(below, n) || is_integer_sqrt(below + 1, n)) by (nonlinear_arith)
            requires
                is_integer_sqrt(below, n - 1),
        ;
        if is_integer_sqrt(below, n) {
            below
        } else {
            below + 1
        }
    }
}

/// Every natural number has an integer square root.
pub proof fn lemma_integer_sqrt(n: int)
    requires
        n >= 0,
    ensures
        is_integer_sqrt(integer_sqrt(n), n),
{
    let root = integer_sqrt_witness(n);
}

/// The integer square root of `n` is at least any `k` whose square is at
/// most `n`.
pub proof fn lemma_integer_sqrt_at_least(n: int, k: int)
    requires
        0 <= k,
        k * k <= n,
    ensures
        integer_sqrt(n) >= k,
{
    assert(k * k >= 0) by (nonlinear_arith);
    lemma_integer_sqrt(n);
    let root = integer_sqrt(n);
    assert(root >= k) by (nonlinear_arith)
        requires
            0 <= k,
            k * k <= n,
            is_integer_sqrt(root, n),
    ;
}

/// The integer square root of `n`, rounded down.
pub fn isqrt(n: u64) -> (root: u64)
    ensures
        is_integer_sqrt(root as int, n as int),
        root == integer_sqrt(n as int),
        root < 0x1_0000_0000,
{
    let mut low: u64 = 0;
    let mut high: u64 = 0x1_0000_0000;
    assert(n < high * high) by (nonlinear_arith)
        requires
            high == 0x1_0000_0000,
            n <= u64::MAX,
    ;
    while high - low > 1
        invariant
            low < high <= 0x1_0000_0000,
            low * low <= n < high * high,
        decreases high - low,
    {
        let middle = low + (high - low) / 2;
        assert(middle * middle <= u64::MAX) by (nonlinear_arith)
            requires
                middle < 0x1_0000_0000,
        ;
        if middle * middle <= n {
            low = middle;
        } else {
            high = middle;
        }
    }
    proof {
        lemma_integer_sqrt_unique(low as int, integer_sqrt(n as int), n as int);
    }
    low
}

} // verus!
