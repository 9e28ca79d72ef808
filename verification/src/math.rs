//! Integer helpers: powers of ten, the integer square root and truncating
//! division, with the lemmas the rest of the library leans on.

use vstd::prelude::*;
use vstd::arithmetic::power::pow;

verus! {

/// The integer square root: the one `r >= 0` with `r * r <= n < (r + 1) * (r + 1)`.
pub open spec fn isqrt(n: int) -> int {
    choose|r: int| is_isqrt(n, r)
}

/// `r` is the floor of the square root of `n`.
pub open spec fn is_isqrt(n: int, r: int) -> bool {
    0 <= r && r * r <= n && n < (r + 1) * (r + 1)
}

/// At most one number is the floor of the square root of `n`.
pub proof fn lemma_isqrt_unique(n: int, r: int, s: int)
    requires
        is_isqrt(n, r),
        is_isqrt(n, s),
    ensures
        r == s,
{
    if r < s {
        assert((r + 1) * (r + 1) <= s * s) by (nonlinear_arith)
            requires
                0 <= r,
                r + 1 <= s,
        ;
    } else if s < r {
        assert((s + 1) * (s + 1) <= r * r) by (nonlinear_arith)
            requires
                0 <= s,
                s + 1 <= r,
        ;
    }
}

/// Every natural number has a floor of its square root, and `isqrt` is it.
pub proof fn lemma_isqrt_exists(n: nat)
    ensures
        is_isqrt(n as int, isqrt(n as int)),
    decreases n,
{
    if n == 0 {
        assert(is_isqrt(0, 0));
    } else {
        lemma_isqrt_exists((n - 1) as nat);
        let r = isqrt(n - 1);
        if (r + 1) * (r + 1) <= n {
            assert((r + 1) * (r + 1) < (r + 2) * (r + 2)) by (nonlinear_arith)
                requires
                    0 <= r,
            ;
            assert(is_isqrt(n as int, r + 1));
        } else {
            assert(is_isqrt(n as int, r));
        }
    }
}

/// A number known to be the floor of the square root of `n` is `isqrt(n)`.
pub proof fn lemma_isqrt_is(n: int, r: int)
    requires
        is_isqrt(n, r),
    ensures
        isqrt(n) == r,
{
    lemma_isqrt_unique(n, r, isqrt(n));
}

/// Calls `num::integer::Roots::sqrt` on a `u128`. The crate documents the
/// result as the truncated square root `r`, which satisfies
/// `r * r <= x < (r + 1) * (r + 1)`.
#[verifier::external_body]
fn roots_sqrt(x: u128) -> (r: u128)
    ensures
        r * r <= x,
        x < (r + 1) * (r + 1),
{
    num::integer::Roots::sqrt(&x)
}

/// The floor of the square root of `x`.
pub fn sqrt_u128(x: u128) -> (r: u128)
    ensures
        r == isqrt(x as int),
        r < 0x1_0000_0000_0000_0000,
{
    let r: u128 = roots_sqrt(x);
    proof {
        lemma_isqrt_is(x as int, r as int);
        if r >= 0x1_0000_0000_0000_0000 {
            assert(r * r >= 0x1_0000_0000_0000_0000 * 0x1_0000_0000_0000_0000) by (nonlinear_arith)
                requires
                    r >= 0x1_0000_0000_0000_0000,
            ;
        }
    }
    r
}

/// Calls `num::pow`, which raises `base` to the power `exp` by repeated
/// squaring. Every product it forms divides the result, so it stays within
/// `u64` whenever the result does.
#[verifier::external_body]
fn num_pow(base: u64, exp: usize) -> (r: u64)
    requires
        pow(base as int, exp as nat) <= u64::MAX,
    ensures
        r == pow(base as int, exp as nat),
{
    num::pow(base, exp)
}

/// Ten to the power `e`.
pub open spec fn pow10(e: nat) -> int {
    pow(10, e)
}

/// One more factor of ten.
pub proof fn lemma_pow10_step(e: nat)
    ensures
        pow10(0) == 1,
        pow10(e + 1) == 10 * pow10(e),
        pow10(e) >= 1,
{
    reveal(pow);
    vstd::arithmetic::power::lemma_pow_positive(10, e);
}

/// Powers of ten grow with the exponent.
pub proof fn lemma_pow10_monotonic(a: nat, b: nat)
    requires
        a <= b,
    ensures
        pow10(a) <= pow10(b),
{
    vstd::arithmetic::power::lemma_pow_increases(10, a, b);
}

/// Ten to the power `a + b` is the product of the two powers.
pub proof fn lemma_pow10_adds(a: nat, b: nat)
    ensures
        pow10(a + b) == pow10(a) * pow10(b),
{
    vstd::arithmetic::power::lemma_pow_adds(10, a, b);
}

/// The largest power of ten below 2^64 is the nineteenth.
pub proof fn lemma_pow10_u64_range(e: nat)
    ensures
        pow10(19) == 10_000_000_000_000_000_000,
        pow10(20) == 100_000_000_000_000_000_000,
        e <= 19 <==> pow10(e) <= u64::MAX,
{
    assert(pow10(19) == 10_000_000_000_000_000_000 && pow10(20) == 100_000_000_000_000_000_000)
        by {
        reveal_with_fuel(pow, 21);
    }
    if e <= 19 {
        lemma_pow10_monotonic(e, 19);
    } else {
        lemma_pow10_monotonic(20, e);
    }
}

/// Ten to the power `exp`, or `None` where that does not fit in 64 bits.
pub fn checked_pow10(exp: u8) -> (r: Option<u64>)
    ensures
        match r {
            Some(v) => v == pow10(exp as nat),
            None => pow10(exp as nat) > u64::MAX,
        },
{
    proof {
        lemma_pow10_u64_range(exp as nat);
        lemma_pow10_step(exp as nat);
    }
    if exp > 19 {
        None
    } else {
        Some(num_pow(10, exp as usize))
    }
}

/// Division that rounds toward zero, for a positive divisor.
pub open spec fn trunc_div(a: int, d: int) -> int {
    if a >= 0 {
        a / d
    } else {
        -((-a) / d)
    }
}

/// Dividing by one power of ten and then by another, rounding toward zero
/// each time, is dividing once by the product of the two.
pub proof fn lemma_trunc_div_pow10_twice(p: int, a: nat, b: nat)
    ensures
        trunc_div(trunc_div(p, pow10(a)), pow10(b)) == trunc_div(p, pow10(a + b)),
{
    lemma_pow10_step(a);
    lemma_pow10_step(b);
    lemma_pow10_adds(a, b);
    let m = if p >= 0 {
        p
    } else {
        -p
    };
    vstd::arithmetic::div_mod::lemma_div_denominator(m, pow10(a), pow10(b));
    vstd::arithmetic::div_mod::lemma_div_pos_is_pos(m, pow10(a));
    vstd::arithmetic::div_mod::lemma_div_pos_is_pos(m / pow10(a), pow10(b));
}

/// Rounding toward zero never moves a number away from zero.
pub proof fn lemma_trunc_div_pow10_bounds(p: int, a: nat)
    ensures
        p >= 0 ==> 0 <= trunc_div(p, pow10(a)) <= p,
        p <= 0 ==> p <= trunc_div(p, pow10(a)) <= 0,
{
    lemma_pow10_step(a);
    let m = if p >= 0 {
        p
    } else {
        -p
    };
    vstd::arithmetic::div_mod::lemma_div_pos_is_pos(m, pow10(a));
    vstd::arithmetic::div_mod::lemma_div_nonincreasing(m, pow10(a));
}

/// A number below a power of ten in size is divided to zero by it.
pub proof fn lemma_trunc_div_pow10_small(p: int, a: nat)
    requires
        -pow10(a) < p < pow10(a),
    ensures
        trunc_div(p, pow10(a)) == 0,
{
    let m = if p >= 0 {
        p
    } else {
        -p
    };
    vstd::arithmetic::div_mod::lemma_basic_div(m, pow10(a));
}

/// Divides `magnitude` by ten `steps` times, rounding down each time.
pub fn scale_down(magnitude: u128, steps: u32) -> (r: u128)
    ensures
        r == magnitude as int / pow10(steps as nat),
{
    let mut m: u128 = magnitude;
    let mut done: u32 = 0;
    proof {
        lemma_pow10_step(0);
    }
    while done < steps && m != 0
        invariant
            done <= steps,
            m == magnitude as int / pow10(done as nat),
        decreases steps - done,
    {
        proof {
            lemma_pow10_step(done as nat);
            vstd::arithmetic::div_mod::lemma_div_denominator(
                magnitude as int,
                pow10(done as nat),
                10,
            );
        }
        m = m / 10;
        done = done + 1;
    }
    proof {
        if done < steps {
            let rest: nat = (steps - done) as nat;
            lemma_pow10_step(done as nat);
            lemma_pow10_step(rest);
            lemma_pow10_adds(done as nat, rest);
            vstd::arithmetic::div_mod::lemma_div_denominator(
                magnitude as int,
                pow10(done as nat),
                pow10(rest),
            );
        }
    }
    m
}

} // verus!
