use platformer::math::{
    asymptotic_smoothing, asymptotic_smoothing_with_delta_time, inverse_lerp, inverse_lerp_clamped,
    isqrt, MILLI,
};

#[test]
fn milli_scale() {
    assert_eq!(MILLI, 1000);
}

#[test]
fn isqrt_exact_and_floor() {
    assert_eq!(isqrt(0), 0);
    assert_eq!(isqrt(1), 1);
    assert_eq!(isqrt(3), 1);
    assert_eq!(isqrt(4), 2);
    assert_eq!(isqrt(160_000), 400);
    assert_eq!(isqrt(393_700), 627);
    assert_eq!(isqrt(u64::MAX), 0xFFFF_FFFF);
}

#[test]
fn inverse_lerp_fractions() {
    assert_eq!(inverse_lerp(0, 200, 50), 250);
    assert_eq!(inverse_lerp(100, 300, 400), 1500);
    assert_eq!(inverse_lerp(0, 200, -50), -250);
    assert_eq!(inverse_lerp_clamped(0, 200, 400), 1000);
    assert_eq!(inverse_lerp_clamped(0, 200, -50), 0);
    assert_eq!(inverse_lerp_clamped(0, 200, 50), 250);
}

#[test]
fn smoothing_blends_toward_target() {
    assert_eq!(asymptotic_smoothing(0, 1000, 500), 500);
    assert_eq!(asymptotic_smoothing(100, 200, 250), 125);
    assert_eq!(asymptotic_smoothing(100, 200, 0), 100);
    assert_eq!(asymptotic_smoothing(100, 200, 1000), 200);
    assert_eq!(asymptotic_smoothing(-100, -200, 500), -150);
}

#[test]
fn smoothing_with_delta_time_scales_the_fraction() {
    // A unit per-second factor over one 64 Hz step blends by
    // 1000 * 60 * 15625 / 1_000_000 = 937 thousandths.
    assert_eq!(
        asymptotic_smoothing_with_delta_time(0, 1000, 1_000, 15_625),
        937
    );
    assert_eq!(
        asymptotic_smoothing_with_delta_time(0, 1000, 1_000, 15_625),
        asymptotic_smoothing(0, 1000, 937)
    );
}
