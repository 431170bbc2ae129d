//! Fixed-point arithmetic helpers.
//!
//! World quantities are stored as `i64` counts of thousandths of a world
//! unit. Interpolation factors are likewise thousandths: `0` means "all of
//! the current value", `1000` means "all of the target".

use vstd::prelude::*;

verus! {

/// Fixed-point scale: how many stored ticks make one world unit.
pub const MILLI: i64 = 1000;

/// Magnitude bound under which all fixed-point helpers stay exact and
/// overflow-free.
pub const FIXED_LIMIT: i64 = 1_000_000_000_000_000;

/// The integer square root, rounded down.
pub open spec fn sqrt_floor(n: nat) -> nat
    decreases n,
{
    if n == 0 {
        0
    } else {
        let p = sqrt_floor((n - 1) as nat);
        if (p + 1) * (p + 1) <= n {
            p + 1
        } else {
            p
        }
    }
}

/// `sqrt_floor(n)` is the unique root with `r * r <= n < (r + 1) * (r + 1)`.
pub proof fn lemma_sqrt_floor_props(n: nat)
    ensures
        sqrt_floor(n) * sqrt_floor(n) <= n,
        n < (sqrt_floor(n) + 1) * (sqrt_floor(n) + 1),
    decreases n,
{
    if n > 0 {
        lemma_sqrt_floor_props((n - 1) as nat);
        let p = sqrt_floor((n - 1) as nat);
        assert(p * p <= n - 1);
        assert(n - 1 < (p + 1) * (p + 1));
        if (p + 1) * (p + 1) <= n {
            assert(sqrt_floor(n) == p + 1);
            assert(n <= (p + 1) * (p + 1));
            assert((p + 1) * (p + 1) < (p + 2) * (p + 2)) by (nonlinear_arith);
            assert(n < (sqrt_floor(n) + 1) * (sqrt_floor(n) + 1));
        } else {
            assert(sqrt_floor(n) == p);
            assert(p * p <= n);
            assert(n < (p + 1) * (p + 1));
            assert(n < (sqrt_floor(n) + 1) * (sqrt_floor(n) + 1));
        }
    } else {
        assert(n == 0);
        assert(sqrt_floor(n) == 0);
        assert(n < (sqrt_floor(n) + 1) * (sqrt_floor(n) + 1)) by (nonlinear_arith)
            requires
                n == 0,
                sqrt_floor(n) == 0,
        ;
    }
}

/// Two integer square roots of the same value coincide.
pub proof fn lemma_sqrt_unique(n: nat, r: nat)
    requires
        r * r <= n,
        n < (r + 1) * (r + 1),
    ensures
        r == sqrt_floor(n),
{
    lemma_sqrt_floor_props(n);
    let s = sqrt_floor(n);
    assert(r == s) by (nonlinear_arith)
        requires
            r * r <= n < (r + 1) * (r + 1),
            s * s <= n < (s + 1) * (s + 1),
    ;
}

/// Integer square root: the largest `r` with `r * r <= x`.
pub fn isqrt(x: u64) -> (r: u64)
    ensures
        r * r <= x,
        x < (r + 1) * (r + 1),
        r == sqrt_floor(x as nat),
{
    proof {
        lemma_sqrt_floor_props(x as nat);
    }
    let mut lo: u64 = 0;
    let mut hi: u64 = 0x1_0000_0000;
    assert(x < 0x1_0000_0000u64 * 0x1_0000_0000u64);
    while hi - lo > 1
        invariant
            lo < hi,
            lo * lo <= x,
            x < hi * hi,
            hi <= 0x1_0000_0000,
        decreases hi - lo,
    {
        let mid: u64 = lo + (hi - lo) / 2;
        proof {
            assert(mid * mid <= 0xFFFF_FFFFu64 * 0xFFFF_FFFFu64) by (nonlinear_arith)
                requires
                    mid <= 0xFFFF_FFFFu64,
            ;
        }
        if mid * mid <= x {
            lo = mid;
        } else {
            hi = mid;
        }
    }
    proof {
        lemma_sqrt_unique(x as nat, lo as nat);
    }
    lo
}

/// A quotient with a positive divisor never grows in magnitude, so it
/// stays representable whenever the dividend is.
pub proof fn lemma_div_fits_i64(n: int, d: int)
    requires
        d > 0,
        i64::MIN <= n <= i64::MAX,
    ensures
        i64::MIN <= n / d <= i64::MAX,
        n >= 0 ==> 0 <= n / d <= n,
        n < 0 ==> n <= n / d <= 0,
{
    if n >= 0 {
        vstd::arithmetic::div_mod::lemma_div_pos_is_pos(n, d);
        vstd::arithmetic::div_mod::lemma_div_nonincreasing(n, d);
    } else {
        vstd::arithmetic::div_mod::lemma_div_of0(d);
        vstd::arithmetic::div_mod::lemma_div_is_ordered(n, 0, d);
        assert(d * n <= n) by (nonlinear_arith)
            requires
                d >= 1,
                n < 0,
        ;
        vstd::arithmetic::div_mod::lemma_div_multiples_vanish(n, d);
        vstd::arithmetic::div_mod::lemma_div_is_ordered(d * n, n, d);
    }
}

/// Where `progress` sits between `a` and `b`, in thousandths: the
/// fixed-point counterpart of `(progress - a) / (b - a)`, rounded toward
/// negative infinity.
pub open spec fn inverse_lerp_spec(a: int, b: int, progress: int) -> int {
    ((progress - a) * 1000) / (b - a)
}

pub fn inverse_lerp(a: i64, b: i64, progress_factor: i64) -> (r: i64)
    requires
        a < b,
        -FIXED_LIMIT <= a <= FIXED_LIMIT,
        -FIXED_LIMIT <= b <= FIXED_LIMIT,
        -FIXED_LIMIT <= progress_factor <= FIXED_LIMIT,
    ensures
        r == inverse_lerp_spec(a as int, b as int, progress_factor as int),
{
    let num: i64 = (progress_factor - a) * 1000;
    proof {
        lemma_div_fits_i64(num as int, b - a);
    }
    num.checked_div_euclid(b - a).unwrap()
}

/// `inverse_lerp` clamped to the unit range `[0, 1000]`.
pub fn inverse_lerp_clamped(a: i64, b: i64, progress_factor: i64) -> (r: i64)
    requires
        a < b,
        -FIXED_LIMIT <= a <= FIXED_LIMIT,
        -FIXED_LIMIT <= b <= FIXED_LIMIT,
        -FIXED_LIMIT <= progress_factor <= FIXED_LIMIT,
    ensures
        r == if inverse_lerp_spec(a as int, b as int, progress_factor as int) < 0 {
            0int
        } else if inverse_lerp_spec(a as int, b as int, progress_factor as int) > 1000 {
            1000int
        } else {
            inverse_lerp_spec(a as int, b as int, progress_factor as int)
        },
{
    let raw: i64 = inverse_lerp(a, b, progress_factor);
    if raw < 0 {
        0
    } else if raw > 1000 {
        1000
    } else {
        raw
    }
}

/// Linear blend from `current` toward `target` by `alpha` thousandths,
/// rounded toward negative infinity.
pub open spec fn lerp_spec(current: int, target: int, alpha: int) -> int {
    (current * (1000 - alpha) + target * alpha) / 1000
}

/// The blend never leaves the interval spanned by its endpoints.
pub proof fn lemma_lerp_bounded(current: int, target: int, alpha: int)
    requires
        0 <= alpha <= 1000,
    ensures
        current <= target ==> current <= lerp_spec(current, target, alpha) <= target,
        target <= current ==> target <= lerp_spec(current, target, alpha) <= current,
{
    let mixed = current * (1000 - alpha) + target * alpha;
    if current <= target {
        assert(1000 * current <= mixed <= 1000 * target) by (nonlinear_arith)
            requires
                0 <= alpha <= 1000,
                current <= target,
                mixed == current * (1000 - alpha) + target * alpha,
        ;
        vstd::arithmetic::div_mod::lemma_div_is_ordered(1000 * current, mixed, 1000);
        vstd::arithmetic::div_mod::lemma_div_is_ordered(mixed, 1000 * target, 1000);
    } else {
        assert(1000 * target <= mixed <= 1000 * current) by (nonlinear_arith)
            requires
                0 <= alpha <= 1000,
                target <= current,
                mixed == current * (1000 - alpha) + target * alpha,
        ;
        vstd::arithmetic::div_mod::lemma_div_is_ordered(1000 * target, mixed, 1000);
        vstd::arithmetic::div_mod::lemma_div_is_ordered(mixed, 1000 * current, 1000);
    }
    vstd::arithmetic::div_mod::lemma_div_multiples_vanish(current, 1000);
    vstd::arithmetic::div_mod::lemma_div_multiples_vanish(target, 1000);
}

/// Eases `current_value` toward `target_value` by the fraction
/// `progress_factor` (in thousandths).
pub fn asymptotic_smoothing(current_value: i64, target_value: i64, progress_factor: i64) -> (r: i64)
    requires
        0 <= progress_factor <= 1000,
        -FIXED_LIMIT <= current_value <= FIXED_LIMIT,
        -FIXED_LIMIT <= target_value <= FIXED_LIMIT,
    ensures
        r == lerp_spec(current_value as int, target_value as int, progress_factor as int),
        -FIXED_LIMIT <= r <= FIXED_LIMIT,
{
    proof {
        assert(-1_000_000_000_000_000_000 <= current_value * (1000 - progress_factor)
            <= 1_000_000_000_000_000_000) by (nonlinear_arith)
            requires
                -FIXED_LIMIT <= current_value <= FIXED_LIMIT,
                0 <= progress_factor <= 1000,
        ;
        assert(-1_000_000_000_000_000_000 <= target_value * progress_factor
            <= 1_000_000_000_000_000_000) by (nonlinear_arith)
            requires
                -FIXED_LIMIT <= target_value <= FIXED_LIMIT,
                0 <= progress_factor <= 1000,
        ;
    }
    let mixed: i64 = current_value * (1000 - progress_factor) + target_value * progress_factor;
    proof {
        lemma_div_fits_i64(mixed as int, 1000);
        lemma_lerp_bounded(current_value as int, target_value as int, progress_factor as int);
    }
    let r: i64 = mixed.checked_div_euclid(1000).unwrap();
    r
}

/// `asymptotic_smoothing` with the fraction scaled by the frame time, for
/// callers that tune a per-second factor: the effective fraction is
/// `progress_factor * 60 * delta_time_us / 1_000_000`.
pub fn asymptotic_smoothing_with_delta_time(
    current_value: i64,
    target_value: i64,
    progress_factor: i64,
    delta_time_us: i64,
) -> (r: i64)
    requires
        0 <= progress_factor <= 1_000_000,
        0 <= delta_time_us <= 1_000_000,
        progress_factor * 60 * delta_time_us / 1_000_000 <= 1000,
        -FIXED_LIMIT <= current_value <= FIXED_LIMIT,
        -FIXED_LIMIT <= target_value <= FIXED_LIMIT,
    ensures
        r == lerp_spec(
            current_value as int,
            target_value as int,
            progress_factor * 60 * delta_time_us / 1_000_000,
        ),
{
    proof {
        assert(0 <= progress_factor * 60 * delta_time_us <= 60_000_000_000_000_000) by (nonlinear_arith)
            requires
                0 <= progress_factor <= 1_000_000,
                0 <= delta_time_us <= 1_000_000,
        ;
        lemma_div_fits_i64(progress_factor * 60 * delta_time_us, 1_000_000);
    }
    let alpha: i64 = (progress_factor * 60 * delta_time_us).checked_div_euclid(1_000_000).unwrap();
    asymptotic_smoothing(current_value, target_value, alpha)
}

} // verus!
