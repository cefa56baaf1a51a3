//! The scalar operations on bit patterns, held against the machine's own
//! single-precision arithmetic and against expected values.
use std::cmp::Ordering;
use std::hint::black_box;
use vec3::binary32;

const QUIET_NAN: u32 = 0x7fc0_0000;
const NEGATIVE_NAN: u32 = 0xffc0_0001;
const SIGNALING_NAN: u32 = 0x7f80_0001;

/// Patterns from every class: zeros, subnormals, normals, infinities, NaNs.
fn patterns() -> Vec<u32> {
    let mut all: Vec<u32> = vec![
        0x0000_0000,
        0x8000_0000,
        0x0000_0001,
        0x8000_0001,
        0x007f_ffff,
        0x807f_ffff,
        0x0080_0000,
        0x8080_0000,
        0x0080_0001,
        0x3f7f_ffff,
        0x3f80_0000,
        0xbf80_0000,
        0x3f80_0001,
        0x3fc0_0000,
        0x4000_0000,
        0xc000_0000,
        0x4b80_0000,
        0x7f7f_ffff,
        0xff7f_ffff,
        0x7f80_0000,
        0xff80_0000,
        QUIET_NAN,
        NEGATIVE_NAN,
        SIGNALING_NAN,
        0xffff_ffff,
        0x7fff_ffff,
    ];
    for x in [0.1f32, -0.1, 3.0, -4.0, 1.0e-40, -1.0e-40, 6.5e37, -1.0e10, 0.333, 5.0] {
        all.push(x.to_bits());
    }
    all
}

#[test]
fn compare_agrees_with_machine_comparison() {
    for &a in &patterns() {
        for &b in &patterns() {
            let (fa, fb) = (black_box(f32::from_bits(a)), black_box(f32::from_bits(b)));
            assert_eq!(binary32::compare(a, b), fa.partial_cmp(&fb), "{a:#010x} ? {b:#010x}");
        }
    }
}

#[test]
fn equals_agrees_with_machine_equality() {
    for &a in &patterns() {
        for &b in &patterns() {
            let (fa, fb) = (black_box(f32::from_bits(a)), black_box(f32::from_bits(b)));
            assert_eq!(binary32::equals(a, b), fa == fb, "{a:#010x} == {b:#010x}");
        }
    }
}

#[test]
fn negate_agrees_with_machine_negation() {
    for &a in &patterns() {
        let fa = black_box(f32::from_bits(a));
        assert_eq!(binary32::negate(a), (-fa).to_bits(), "-{a:#010x}");
    }
}

#[test]
fn min_and_max_agree_with_machine_where_it_is_determined() {
    for &a in &patterns() {
        for &b in &patterns() {
            let (fa, fb) = (black_box(f32::from_bits(a)), black_box(f32::from_bits(b)));
            // Two NaNs, or two patterns that compare equal, leave the
            // machine a choice.
            if fa.is_nan() || fb.is_nan() || (fa == fb && a != b) {
                continue;
            }
            assert_eq!(binary32::min(a, b), fa.min(fb).to_bits(), "min {a:#010x} {b:#010x}");
            assert_eq!(binary32::max(a, b), fa.max(fb).to_bits(), "max {a:#010x} {b:#010x}");
        }
    }
}

#[test]
fn min_and_max_pass_over_a_quiet_nan_as_the_machine_does() {
    for &a in &patterns() {
        let fa = black_box(f32::from_bits(a));
        if fa.is_nan() {
            continue;
        }
        let nan = black_box(f32::from_bits(QUIET_NAN));
        assert_eq!(binary32::min(a, QUIET_NAN), fa.min(nan).to_bits());
        assert_eq!(binary32::min(QUIET_NAN, a), nan.min(fa).to_bits());
        assert_eq!(binary32::max(a, QUIET_NAN), fa.max(nan).to_bits());
        assert_eq!(binary32::max(QUIET_NAN, a), nan.max(fa).to_bits());
    }
}

#[test]
fn compare_orders_numbers_by_value() {
    let (one, two) = (1.0f32.to_bits(), 2.0f32.to_bits());
    assert_eq!(one, 0x3f80_0000);
    assert_eq!(binary32::compare(one, two), Some(Ordering::Less));
    assert_eq!(binary32::compare(two, one), Some(Ordering::Greater));
    assert_eq!(binary32::compare(one, one), Some(Ordering::Equal));
    assert_eq!(binary32::compare((-2.0f32).to_bits(), (-1.0f32).to_bits()), Some(Ordering::Less));
    assert_eq!(binary32::compare((-1.0f32).to_bits(), one), Some(Ordering::Less));
}

#[test]
fn compare_takes_the_two_zeros_as_equal() {
    assert_eq!(binary32::compare(0x0000_0000, 0x8000_0000), Some(Ordering::Equal));
    assert_eq!(binary32::compare(0x8000_0000, 0x0000_0000), Some(Ordering::Equal));
    assert!(binary32::equals(0x0000_0000, 0x8000_0000));
}

#[test]
fn compare_places_subnormals_between_zero_and_the_normals() {
    assert_eq!(binary32::compare(0x0000_0000, 0x0000_0001), Some(Ordering::Less));
    assert_eq!(binary32::compare(0x007f_ffff, 0x0080_0000), Some(Ordering::Less));
    assert_eq!(binary32::compare(0x8000_0001, 0x8000_0000), Some(Ordering::Less));
    assert_eq!(binary32::compare(0x8080_0000, 0x807f_ffff), Some(Ordering::Less));
}

#[test]
fn compare_places_the_infinities_at_the_ends() {
    let (inf, neg_inf) = (binary32::INFINITY, 0xff80_0000);
    assert_eq!(inf, f32::INFINITY.to_bits());
    assert_eq!(binary32::compare(f32::MAX.to_bits(), inf), Some(Ordering::Less));
    assert_eq!(binary32::compare(neg_inf, f32::MIN.to_bits()), Some(Ordering::Less));
    assert_eq!(binary32::compare(neg_inf, inf), Some(Ordering::Less));
    assert_eq!(binary32::compare(inf, inf), Some(Ordering::Equal));
}

#[test]
fn compare_leaves_a_nan_unordered() {
    for nan in [QUIET_NAN, NEGATIVE_NAN, SIGNALING_NAN, 0xffff_ffff] {
        assert_eq!(binary32::compare(nan, nan), None);
        assert_eq!(binary32::compare(nan, 0x3f80_0000), None);
        assert_eq!(binary32::compare(0x3f80_0000, nan), None);
        assert_eq!(binary32::compare(nan, binary32::INFINITY), None);
        assert!(!binary32::equals(nan, nan));
        assert!(!binary32::equals(nan, 0));
    }
}

#[test]
fn equals_tells_numbers_apart() {
    assert!(binary32::equals(0x3f80_0000, 0x3f80_0000));
    assert!(!binary32::equals(0x3f80_0000, 0x3f80_0001));
    assert!(!binary32::equals(0x3f80_0000, 0xbf80_0000));
    assert!(binary32::equals(0xff80_0000, 0xff80_0000));
}

#[test]
fn negate_flips_only_the_sign_bit() {
    assert_eq!(binary32::negate(0x3f80_0000), 0xbf80_0000);
    assert_eq!(binary32::negate(0xbf80_0000), 0x3f80_0000);
    assert_eq!(binary32::negate(0x0000_0000), binary32::SIGN_BIT);
    assert_eq!(binary32::negate(0x8000_0000), 0x0000_0000);
    assert_eq!(binary32::negate(0x7f80_0000), 0xff80_0000);
    assert_eq!(binary32::negate(SIGNALING_NAN), 0xff80_0001);
    assert_eq!(binary32::negate(0xffff_ffff), 0x7fff_ffff);
}

#[test]
fn negate_twice_is_the_identity() {
    for &a in &patterns() {
        assert_eq!(binary32::negate(binary32::negate(a)), a);
    }
}

#[test]
fn min_and_max_select_by_value() {
    let (one, two, minus_three) = (1.0f32.to_bits(), 2.0f32.to_bits(), (-3.0f32).to_bits());
    assert_eq!(binary32::min(one, two), one);
    assert_eq!(binary32::min(two, one), one);
    assert_eq!(binary32::max(one, two), two);
    assert_eq!(binary32::max(two, one), two);
    assert_eq!(binary32::min(one, minus_three), minus_three);
    assert_eq!(binary32::max(one, minus_three), one);
    assert_eq!(binary32::min(0xff80_0000, minus_three), 0xff80_0000);
    assert_eq!(binary32::max(0x7f80_0000, two), 0x7f80_0000);
}

#[test]
fn min_and_max_never_select_a_nan_over_a_number() {
    for nan in [QUIET_NAN, NEGATIVE_NAN, SIGNALING_NAN] {
        for number in [0x3f80_0000, 0x8000_0000, 0xff80_0000, 0x0000_0001] {
            assert_eq!(binary32::min(nan, number), number);
            assert_eq!(binary32::min(number, nan), number);
            assert_eq!(binary32::max(nan, number), number);
            assert_eq!(binary32::max(number, nan), number);
        }
    }
}

#[test]
fn min_and_max_of_two_nans_give_the_second() {
    assert_eq!(binary32::min(QUIET_NAN, NEGATIVE_NAN), NEGATIVE_NAN);
    assert_eq!(binary32::max(QUIET_NAN, NEGATIVE_NAN), NEGATIVE_NAN);
    assert_eq!(binary32::min(NEGATIVE_NAN, QUIET_NAN), QUIET_NAN);
    assert_eq!(binary32::max(NEGATIVE_NAN, QUIET_NAN), QUIET_NAN);
}

#[test]
fn min_and_max_of_equal_numbers_give_the_first() {
    assert_eq!(binary32::min(0x0000_0000, 0x8000_0000), 0x0000_0000);
    assert_eq!(binary32::min(0x8000_0000, 0x0000_0000), 0x8000_0000);
    assert_eq!(binary32::max(0x0000_0000, 0x8000_0000), 0x0000_0000);
    assert_eq!(binary32::max(0x8000_0000, 0x0000_0000), 0x8000_0000);
    assert_eq!(binary32::min(0x3f80_0000, 0x3f80_0000), 0x3f80_0000);
}
