use vstd::arithmetic::div_mod::{lemma_fundamental_div_mod, lemma_mod_multiples_basic};
use vstd::math::abs;
use vstd::prelude::*;

verus! {

/// For `q = qa + qb i` and `y = c + di` over the integers, the two
/// numerators of `(q * y) / y` are `qa` and `qb` times `c * c + d * d`.
pub proof fn lemma_product_numerators(qa: int, qb: int, c: int, d: int)
    ensures
        (qa * c - qb * d) * c + (qb * c + d * qa) * d == qa * (c * c + d * d),
        (qb * c + d * qa) * c - (qa * c - qb * d) * d == qb * (c * c + d * d),
{
    assert((qa * c - qb * d) * c + (qb * c + d * qa) * d == qa * (c * c + d * d))
        by (nonlinear_arith);
    assert((qb * c + d * qa) * c - (qa * c - qb * d) * d == qb * (c * c + d * d))
        by (nonlinear_arith);
}

/// A sum of two squares is zero only when both are.
pub proof fn lemma_norm_positive(c: int, d: int)
    ensures
        c * c + d * d >= 0,
        c * c + d * d == 0 <==> c == 0 && d == 0,
{
    assert(c * c >= 0 && d * d >= 0) by (nonlinear_arith);
    assert(c != 0 ==> c * c > 0) by (nonlinear_arith);
    assert(d != 0 ==> d * d > 0) by (nonlinear_arith);
}

/// The quotient that rounds toward zero, as the machine integers divide.
pub open spec fn truncating_div(n: int, m: int) -> int {
    if n >= 0 {
        n / m
    } else {
        -((-n) / m)
    }
}

/// Dividing a multiple of a positive `m` by `m` leaves no remainder to round.
pub proof fn lemma_truncating_div_of_multiple(q: int, m: int)
    requires
        m > 0,
    ensures
        truncating_div(q * m, m) == q,
{
    if q * m >= 0 {
        assert((q * m) / m == q) by (nonlinear_arith)
            requires
                m > 0,
        ;
    } else {
        assert(-(q * m) == (-q) * m) by (nonlinear_arith);
        assert(((-q) * m) / m == -q) by (nonlinear_arith)
            requires
                m > 0,
        ;
    }
}

/// What the truncating quotient leaves over is smaller than the divisor.
pub proof fn lemma_truncating_div_remainder(n: int, m: int)
    requires
        m > 0,
    ensures
        -m < n - truncating_div(n, m) * m < m,
{
    if n >= 0 {
        assert(0 <= n - (n / m) * m < m) by (nonlinear_arith)
            requires
                m > 0,
        ;
    } else {
        let k = -n;
        assert(0 <= k - (k / m) * m < m) by (nonlinear_arith)
            requires
                m > 0,
        ;
        assert((-(k / m)) * m == -((k / m) * m)) by (nonlinear_arith);
    }
}

/// If `m * e == r * c - s * d` (or with a sum in place of the difference)
/// for remainders `r` and `s` smaller than a positive `m`, then `e` is
/// smaller than `|c| + |d|`.
pub proof fn lemma_scaled_error_bound(m: int, e: int, r: int, s: int, c: int, d: int)
    requires
        m > 0,
        -m < r < m,
        -m < s < m,
        m * e == r * c - s * d || m * e == r * d + s * c,
        !(c == 0 && d == 0),
    ensures
        -(abs(c) + abs(d)) < e < abs(c) + abs(d),
{
    let bound = abs(c) + abs(d);
    assert(-((m - 1) * abs(c)) <= r * c <= (m - 1) * abs(c)) by (nonlinear_arith)
        requires
            -m < r < m,
            abs(c) >= 0,
            abs(c) == c || abs(c) == -c,
    ;
    assert(-((m - 1) * abs(d)) <= s * d <= (m - 1) * abs(d)) by (nonlinear_arith)
        requires
            -m < s < m,
            abs(d) >= 0,
            abs(d) == d || abs(d) == -d,
    ;
    assert(-((m - 1) * abs(d)) <= r * d <= (m - 1) * abs(d)) by (nonlinear_arith)
        requires
            -m < r < m,
            abs(d) >= 0,
            abs(d) == d || abs(d) == -d,
    ;
    assert(-((m - 1) * abs(c)) <= s * c <= (m - 1) * abs(c)) by (nonlinear_arith)
        requires
            -m < s < m,
            abs(c) >= 0,
            abs(c) == c || abs(c) == -c,
    ;
    assert((m - 1) * abs(c) + (m - 1) * abs(d) == (m - 1) * bound) by (nonlinear_arith)
        requires
            bound == abs(c) + abs(d),
    ;
    assert(-((m - 1) * bound) <= m * e <= (m - 1) * bound);
    assert(-bound < e < bound) by (nonlinear_arith)
        requires
            m > 0,
            bound > 0,
            -((m - 1) * bound) <= m * e <= (m - 1) * bound,
    ;
}

/// Over the integers, `(x / y) * y` differs from `x` by less than
/// `|c| + |d|` in each component, for `x = a + bi` and a nonzero
/// `y = c + di`, where the quotient rounds each component toward zero.
pub proof fn lemma_quotient_times_divisor_is_close(a: int, b: int, c: int, d: int)
    requires
        !(c == 0 && d == 0),
    ensures
        ({
            let m = c * c + d * d;
            let qr = truncating_div(a * c + b * d, m);
            let qi = truncating_div(b * c - a * d, m);
            &&& -(abs(c) + abs(d)) < a - (qr * c - qi * d) < abs(c) + abs(d)
            &&& -(abs(c) + abs(d)) < b - (qi * c + qr * d) < abs(c) + abs(d)
        }),
{
    let m = c * c + d * d;
    let nr = a * c + b * d;
    let ni = b * c - a * d;
    let qr = truncating_div(nr, m);
    let qi = truncating_div(ni, m);
    let rr = nr - qr * m;
    let ri = ni - qi * m;
    lemma_norm_positive(c, d);
    lemma_truncating_div_remainder(nr, m);
    lemma_truncating_div_remainder(ni, m);
    assert(m * (a - (qr * c - qi * d)) == rr * c - ri * d) by (nonlinear_arith)
        requires
            m == c * c + d * d,
            rr == a * c + b * d - qr * m,
            ri == b * c - a * d - qi * m,
    ;
    assert(m * (b - (qi * c + qr * d)) == rr * d + ri * c) by (nonlinear_arith)
        requires
            m == c * c + d * d,
            rr == a * c + b * d - qr * m,
            ri == b * c - a * d - qi * m,
    ;
    lemma_scaled_error_bound(m, a - (qr * c - qi * d), rr, ri, c, d);
    lemma_scaled_error_bound(m, b - (qi * c + qr * d), rr, ri, c, d);
}

/// Where a positive `m` divides `n`, the truncating quotient times `m` is
/// `n` again.
pub proof fn lemma_truncating_div_of_divisible(n: int, m: int)
    requires
        m > 0,
        n % m == 0,
    ensures
        truncating_div(n, m) * m == n,
{
    if n >= 0 {
        assert((n / m) * m == n) by (nonlinear_arith)
            requires
                m > 0,
                n % m == 0,
        ;
    } else {
        let k = -n;
        let j = n / m;
        lemma_fundamental_div_mod(n, m);
        assert(k == (-j) * m) by (nonlinear_arith)
            requires
                k == -n,
                n == m * j,
        ;
        lemma_mod_multiples_basic(-j, m);
        lemma_fundamental_div_mod(k, m);
        assert((-(k / m)) * m == -(m * (k / m))) by (nonlinear_arith);
    }
}

/// Over the integers, `(x / y) * y` is `x` for `x = a + bi` and a nonzero
/// `y = c + di`, where `c * c + d * d` divides both numerators of the
/// quotient.
pub proof fn lemma_quotient_times_divisor_is_exact(a: int, b: int, c: int, d: int)
    requires
        !(c == 0 && d == 0),
        (a * c + b * d) % (c * c + d * d) == 0,
        (b * c - a * d) % (c * c + d * d) == 0,
    ensures
        ({
            let m = c * c + d * d;
            let qr = truncating_div(a * c + b * d, m);
            let qi = truncating_div(b * c - a * d, m);
            &&& a == qr * c - qi * d
            &&& b == qi * c + qr * d
        }),
{
    let m = c * c + d * d;
    let qr = truncating_div(a * c + b * d, m);
    let qi = truncating_div(b * c - a * d, m);
    lemma_norm_positive(c, d);
    lemma_truncating_div_of_divisible(a * c + b * d, m);
    lemma_truncating_div_of_divisible(b * c - a * d, m);
    assert(m * (a - (qr * c - qi * d)) == 0) by (nonlinear_arith)
        requires
            m == c * c + d * d,
            qr * m == a * c + b * d,
            qi * m == b * c - a * d,
    ;
    assert(m * (b - (qi * c + qr * d)) == 0) by (nonlinear_arith)
        requires
            m == c * c + d * d,
            qr * m == a * c + b * d,
            qi * m == b * c - a * d,
    ;
    assert(a - (qr * c - qi * d) == 0 && b - (qi * c + qr * d) == 0) by (nonlinear_arith)
        requires
            m > 0,
            m * (a - (qr * c - qi * d)) == 0,
            m * (b - (qi * c + qr * d)) == 0,
    ;
}

} // verus!
