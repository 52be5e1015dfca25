//! Rounded quotients of wide products, computed in 128-bit words.
//!
//! A quantity of tokens is converted by multiplying it with one number and
//! dividing by another, both up to 96 bits wide.  The product does not fit
//! in a machine word, so the quotient is built from the two 32-bit halves of
//! the quantity.  The result is the exact quotient, rounded to the nearest
//! integer and clamped to what a `u64` can hold.

use vstd::arithmetic::div_mod::lemma_fundamental_div_mod;
use vstd::arithmetic::div_mod::lemma_fundamental_div_mod_converse;
use vstd::prelude::*;

verus! {

/// The largest factor or divisor that `mul_div_round` accepts: `2^96 - 1`.
pub const WIDE_MAX: u128 = 0xffff_ffff_ffff_ffff_ffff_ffff;

/// The largest exponent that `pow10_exec` accepts.
pub const MAX_EXPONENT: u32 = 28;

/// The integer nearest to `n / d`.  Where `n / d` lies halfway between two
/// integers, the larger one.  Meant for `n >= 0` and `d > 0`.
pub open spec fn round_div(n: int, d: int) -> int {
    (2 * n + d) / (2 * d)
}

/// `x` brought into the range of `u64`.
pub open spec fn saturate(x: int) -> int {
    if x < 0 {
        0
    } else if x > u64::MAX {
        u64::MAX as int
    } else {
        x
    }
}

/// Ten to the power `e`.
pub open spec fn pow10(e: nat) -> nat
    decreases e,
{
    if e == 0 {
        1
    } else {
        10 * pow10((e - 1) as nat)
    }
}

/// `round_div(n, d)` is the quotient of `n` by `d`, plus one where the
/// remainder is at least half of `d`.
pub proof fn lemma_round_div_from_remainder(n: int, d: int)
    requires
        0 <= n,
        0 < d,
    ensures
        round_div(n, d) == n / d + (if 2 * (n % d) >= d { 1int } else { 0int }),
{
    let q = n / d;
    let r = n % d;
    lemma_fundamental_div_mod(n, d);
    assert(n == d * q + r);
    assert(0 <= r < d) by (nonlinear_arith)
        requires
            0 < d,
            r == n % d,
    ;
    if 2 * r >= d {
        assert(2 * n + d == (q + 1) * (2 * d) + (2 * r - d)) by (nonlinear_arith)
            requires
                n == d * q + r,
        ;
        lemma_fundamental_div_mod_converse(2 * n + d, 2 * d, q + 1, 2 * r - d);
    } else {
        assert(2 * n + d == q * (2 * d) + (2 * r + d)) by (nonlinear_arith)
            requires
                n == d * q + r,
        ;
        lemma_fundamental_div_mod_converse(2 * n + d, 2 * d, q, 2 * r + d);
    }
}

/// No integer is nearer to `n / d` than `round_div(n, d)`: the two differ by
/// at most one half, and by exactly one half only where `round_div(n, d)` is
/// the larger.
pub proof fn lemma_round_div_is_nearest(n: int, d: int)
    requires
        0 <= n,
        0 < d,
    ensures
        -d < 2 * (round_div(n, d) * d - n) <= d,
{
    let q = n / d;
    let r = n % d;
    lemma_round_div_from_remainder(n, d);
    lemma_fundamental_div_mod(n, d);
    assert(0 <= r < d) by (nonlinear_arith)
        requires
            0 < d,
            r == n % d,
    ;
    if 2 * r >= d {
        assert((q + 1) * d - n == d - r) by (nonlinear_arith)
            requires
                n == d * q + r,
        ;
    } else {
        assert(q * d - n == -r) by (nonlinear_arith)
            requires
                n == d * q + r,
        ;
    }
}

/// A quotient that is a whole number is its own rounding.
pub proof fn lemma_round_div_exact(k: int, d: int)
    requires
        0 <= k,
        0 < d,
    ensures
        round_div(k * d, d) == k,
{
    assert(2 * (k * d) + d == k * (2 * d) + d) by (nonlinear_arith);
    lemma_fundamental_div_mod_converse(2 * (k * d) + d, 2 * d, k, d);
}

/// Where `n` is at least `k` times `d`, its rounded quotient by `d` is at
/// least `k`.
pub proof fn lemma_round_div_lower_bound(n: int, d: int, k: int)
    requires
        0 < d,
        0 <= k,
        k * d <= n,
    ensures
        k <= round_div(n, d),
{
    let q = n / d;
    let r = n % d;
    assert(0 <= n) by (nonlinear_arith)
        requires
            0 < d,
            0 <= k,
            k * d <= n,
    ;
    lemma_round_div_from_remainder(n, d);
    lemma_fundamental_div_mod(n, d);
    assert(k <= q) by (nonlinear_arith)
        requires
            0 < d,
            k * d <= n,
            n == d * q + r,
            r == n % d,
            r < d,
    ;
}

/// The powers of ten grow with the exponent.
pub proof fn lemma_pow10_monotonic(i: nat, j: nat)
    requires
        i <= j,
    ensures
        0 < pow10(i) <= pow10(j),
    decreases j,
{
    if j == 0 {
    } else if i == j {
        lemma_pow10_monotonic((i - 1) as nat, (j - 1) as nat);
    } else {
        lemma_pow10_monotonic(i, (j - 1) as nat);
    }
}

/// Ten to the power 28 fits in 96 bits.
pub proof fn lemma_pow10_max()
    ensures
        pow10(28) == 10_000_000_000_000_000_000_000_000_000,
        pow10(28) <= WIDE_MAX,
{
    reveal_with_fuel(pow10, 29);
}

/// Ten to the power `e`, for an exponent up to `MAX_EXPONENT`.
pub(crate) fn pow10_exec(e: u32) -> (p: u128)
    requires
        e <= MAX_EXPONENT,
    ensures
        p == pow10(e as nat),
        0 < p <= WIDE_MAX,
{
    let mut p: u128 = 1;
    let mut i: u32 = 0;
    while i < e
        invariant
            i <= e <= MAX_EXPONENT,
            p == pow10(i as nat),
        decreases e - i,
    {
        proof {
            lemma_pow10_monotonic((i + 1) as nat, 28);
            lemma_pow10_max();
        }
        p = p * 10;
        i = i + 1;
    }
    proof {
        lemma_pow10_monotonic(e as nat, 28);
        lemma_pow10_max();
    }
    p
}

/// `a * b / d`, rounded to the nearest integer and clamped to `u64::MAX`.
///
/// The product may be 160 bits wide.  With `a = h * 2^32 + l`, the quotient
/// of `h * b` by `d` is taken first, then its remainder is carried into the
/// low half.  As soon as a partial quotient passes `u64::MAX` the result is
/// known to be the upper bound.
pub(crate) fn mul_div_round(a: u64, b: u128, d: u128) -> (r: u64)
    requires
        b <= WIDE_MAX,
        0 < d <= WIDE_MAX,
    ensures
        r == saturate(round_div(a * b, d as int)),
{
    let base: u128 = 0x1_0000_0000;
    let h: u128 = (a / 0x1_0000_0000) as u128;
    let l: u128 = (a % 0x1_0000_0000) as u128;
    let ghost n: int = a * b;
    assert(h * b <= 0xffff_ffff * 0xffff_ffff_ffff_ffff_ffff_ffff) by (nonlinear_arith)
        requires
            0 <= h <= 0xffff_ffff,
            0 <= b <= 0xffff_ffff_ffff_ffff_ffff_ffff,
    ;
    assert(l * b <= 0xffff_ffff * 0xffff_ffff_ffff_ffff_ffff_ffff) by (nonlinear_arith)
        requires
            0 <= l <= 0xffff_ffff,
            0 <= b <= 0xffff_ffff_ffff_ffff_ffff_ffff,
    ;
    let th: u128 = h * b;
    let tl: u128 = l * b;
    assert(n == th * base + tl) by (nonlinear_arith)
        requires
            n == a * b,
            a == h * base + l,
            th == h * b,
            tl == l * b,
    ;
    let qh: u128 = th / d;
    let rh: u128 = th % d;
    proof {
        lemma_fundamental_div_mod(th as int, d as int);
    }
    if qh >= base {
        proof {
            assert(0x1_0000_0000_0000_0000 * d <= n) by (nonlinear_arith)
                requires
                    n == th * base + tl,
                    th == d * qh + rh,
                    qh >= base,
                    base == 0x1_0000_0000,
                    0 < d,
                    0 <= rh,
                    0 <= tl,
            ;
            lemma_round_div_lower_bound(n, d as int, 0x1_0000_0000_0000_0000);
        }
        return u64::MAX;
    }
    let ql: u128 = tl / d;
    let rl: u128 = tl % d;
    proof {
        lemma_fundamental_div_mod(tl as int, d as int);
    }
    if ql > 0xffff_ffff_ffff_ffff {
        proof {
            assert(0x1_0000_0000_0000_0000 * d <= n) by (nonlinear_arith)
                requires
                    n == th * base + tl,
                    tl == d * ql + rl,
                    ql >= 0x1_0000_0000_0000_0000,
                    0 < d,
                    0 <= rl,
                    0 <= th,
                    0 < base,
            ;
            lemma_round_div_lower_bound(n, d as int, 0x1_0000_0000_0000_0000);
        }
        return u64::MAX;
    }
    assert(rh * base <= 0xffff_ffff_ffff_ffff_ffff_ffff * 0x1_0000_0000) by (nonlinear_arith)
        requires
            0 <= rh <= 0xffff_ffff_ffff_ffff_ffff_ffff,
            base == 0x1_0000_0000,
    ;
    let tc: u128 = rh * base;
    let qc: u128 = tc / d;
    let rc: u128 = tc % d;
    proof {
        lemma_fundamental_div_mod(tc as int, d as int);
        assert(qc < base) by (nonlinear_arith)
            requires
                tc == rh * base,
                tc == d * qc + rc,
                rh < d,
                0 <= rc,
                0 < base,
        ;
    }
    let rsum: u128 = rc + rl;
    let carry: u128 = if rsum >= d { 1 } else { 0 };
    let rem: u128 = if rsum >= d { rsum - d } else { rsum };
    let quot: u128 = qh * base + qc + ql + carry;
    proof {
        assert(n == quot * d + rem) by (nonlinear_arith)
            requires
                n == th * base + tl,
                th == d * qh + rh,
                tc == rh * base,
                tc == d * qc + rc,
                tl == d * ql + rl,
                rc + rl == carry * d + rem,
                quot == qh * base + qc + ql + carry,
        ;
        lemma_fundamental_div_mod_converse(n, d as int, quot as int, rem as int);
        lemma_round_div_from_remainder(n, d as int);
    }
    let up: u128 = if rem >= d - rem { 1 } else { 0 };
    let rounded: u128 = quot + up;
    if rounded > 0xffff_ffff_ffff_ffff {
        u64::MAX
    } else {
        rounded as u64
    }
}

} // verus!
