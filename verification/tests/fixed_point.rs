use player_motion::fixed::{Fixed, SCALE};
use player_motion::vec3::{find_root_up, Vec3, MOST_SQUARED};

fn fx(raw: i64) -> Fixed {
    Fixed::from_raw(raw)
}

#[test]
fn scale_is_one_billion() {
    assert_eq!(SCALE, 1_000_000_000);
    assert_eq!(Fixed::one().raw, 1_000_000_000);
    assert_eq!(Fixed::zero().raw, 0);
}

#[test]
fn from_int_counts_whole_units() {
    assert_eq!(Fixed::from_int(3).raw, 3_000_000_000);
    assert_eq!(Fixed::from_int(-13).raw, -13_000_000_000);
    assert_eq!(Fixed::from_int(0).raw, 0);
    assert_eq!(Fixed::from_int(i32::MAX).raw, 2_147_483_647_000_000_000);
    assert_eq!(Fixed::from_int(i32::MIN).raw, -2_147_483_648_000_000_000);
}

#[test]
fn from_nanos_reads_seconds() {
    assert_eq!(Fixed::from_nanos(16_666_667).raw, 16_666_667);
    assert_eq!(Fixed::from_nanos(0).raw, 0);
    assert_eq!(Fixed::from_nanos(i64::MAX as u64).raw, i64::MAX);
    assert_eq!(Fixed::from_nanos(i64::MAX as u64 + 1).raw, i64::MAX);
    assert_eq!(Fixed::from_nanos(u64::MAX).raw, i64::MAX);
}

#[test]
fn plus_and_minus_are_exact_within_range() {
    assert_eq!(fx(1_500_000_000).plus(fx(2_250_000_000)).raw, 3_750_000_000);
    assert_eq!(fx(1_500_000_000).minus(fx(2_250_000_000)).raw, -750_000_000);
    assert_eq!(fx(-7).plus(fx(7)).raw, 0);
}

#[test]
fn plus_and_minus_saturate() {
    assert_eq!(fx(i64::MAX).plus(fx(1)).raw, i64::MAX);
    assert_eq!(fx(i64::MIN).plus(fx(-1)).raw, i64::MIN);
    assert_eq!(fx(i64::MIN).minus(fx(1)).raw, i64::MIN);
    assert_eq!(fx(i64::MAX).minus(fx(-1)).raw, i64::MAX);
    assert_eq!(fx(i64::MAX).plus(fx(i64::MAX)).raw, i64::MAX);
    assert_eq!(fx(0).minus(fx(i64::MIN)).raw, i64::MAX);
}

#[test]
fn neg_saturates_at_the_lowest_value() {
    assert_eq!(fx(5).neg().raw, -5);
    assert_eq!(fx(-5).neg().raw, 5);
    assert_eq!(fx(i64::MAX).neg().raw, -i64::MAX);
    assert_eq!(fx(i64::MIN).neg().raw, i64::MAX);
}

#[test]
fn times_scales_and_rounds_toward_zero() {
    assert_eq!(fx(1_500_000_000).times(fx(2_500_000_000)).raw, 3_750_000_000);
    assert_eq!(fx(333_333_333).times(fx(333_333_333)).raw, 111_111_110);
    assert_eq!(fx(-333_333_333).times(fx(333_333_333)).raw, -111_111_110);
    assert_eq!(fx(333_333_333).times(fx(-333_333_333)).raw, -111_111_110);
    assert_eq!(fx(-333_333_333).times(fx(-333_333_333)).raw, 111_111_110);
    assert_eq!(fx(1).times(fx(500_000_000)).raw, 0);
    assert_eq!(fx(-1).times(fx(500_000_000)).raw, 0);
}

#[test]
fn times_by_one_and_zero() {
    assert_eq!(fx(-9_810_000_000).times(Fixed::one()).raw, -9_810_000_000);
    assert_eq!(fx(i64::MIN).times(Fixed::one()).raw, i64::MIN);
    assert_eq!(fx(i64::MAX).times(Fixed::zero()).raw, 0);
    assert_eq!(Fixed::zero().times(fx(i64::MIN)).raw, 0);
}

#[test]
fn times_saturates() {
    assert_eq!(fx(i64::MAX).times(fx(2_000_000_000)).raw, i64::MAX);
    assert_eq!(fx(i64::MIN).times(fx(2_000_000_000)).raw, i64::MIN);
    assert_eq!(fx(i64::MIN).times(fx(-2_000_000_000)).raw, i64::MAX);
    assert_eq!(fx(i64::MIN).times(fx(i64::MIN)).raw, i64::MAX);
    assert_eq!(fx(i64::MAX).times(fx(i64::MIN)).raw, i64::MIN);
}

#[test]
fn times_gives_the_frame_shares() {
    // gravity -9.81 over a sixtieth of a second, friction 4.0 over the same
    assert_eq!(fx(-9_810_000_000).times(Fixed::from_nanos(16_666_667)).raw, -163_500_003);
    assert_eq!(fx(4_000_000_000).times(Fixed::from_nanos(16_666_667)).raw, 66_666_668);
}

#[test]
fn over_int_rounds_toward_zero() {
    assert_eq!(fx(150_000_000_000).over_int(75).raw, 2_000_000_000);
    assert_eq!(fx(1_000_000_000).over_int(75).raw, 13_333_333);
    assert_eq!(fx(-1_000_000_000).over_int(75).raw, -13_333_333);
    assert_eq!(fx(74).over_int(75).raw, 0);
    assert_eq!(fx(-74).over_int(75).raw, 0);
    assert_eq!(fx(i64::MIN).over_int(1).raw, i64::MIN);
}

#[test]
fn clamp_moves_into_the_range() {
    let lo = fx(-89_900_000_000);
    let hi = fx(89_900_000_000);
    assert_eq!(fx(0).clamp(lo, hi), fx(0));
    assert_eq!(fx(89_900_000_000).clamp(lo, hi), hi);
    assert_eq!(fx(89_900_000_001).clamp(lo, hi), hi);
    assert_eq!(fx(-89_900_000_001).clamp(lo, hi), lo);
    assert_eq!(fx(i64::MAX).clamp(lo, hi), hi);
    assert_eq!(fx(i64::MIN).clamp(lo, hi), lo);
    // an empty range gives its lower end
    assert_eq!(fx(0).clamp(fx(5), fx(1)), fx(5));
}

#[test]
fn is_zero_only_for_zero() {
    assert!(fx(0).is_zero());
    assert!(!fx(1).is_zero());
    assert!(!fx(-1).is_zero());
}

#[test]
fn vector_sum_difference_and_scale() {
    let a = Vec3::new(fx(1_000_000_000), fx(-2_000_000_000), fx(3));
    let b = Vec3::new(fx(500_000_000), fx(500_000_000), fx(-3));
    assert_eq!(a.plus(b), Vec3::new(fx(1_500_000_000), fx(-1_500_000_000), fx(0)));
    assert_eq!(a.minus(b), Vec3::new(fx(500_000_000), fx(-2_500_000_000), fx(6)));
    assert_eq!(
        a.scale(fx(2_500_000_000)),
        Vec3::new(fx(2_500_000_000), fx(-5_000_000_000), fx(7))
    );
    assert_eq!(Vec3::zero(), Vec3::new(fx(0), fx(0), fx(0)));
}

#[test]
fn vector_sum_saturates_by_component() {
    let a = Vec3::new(fx(i64::MAX), fx(i64::MIN), fx(1));
    let b = Vec3::new(fx(1), fx(-1), fx(1));
    assert_eq!(a.plus(b), Vec3::new(fx(i64::MAX), fx(i64::MIN), fx(2)));
}

#[test]
fn lerp_blends_by_the_share() {
    let v = Vec3::new(fx(3_000_000_000), fx(-6_000_000_000), fx(1));
    assert_eq!(
        v.lerp(Vec3::zero(), fx(250_000_000)),
        Vec3::new(fx(2_250_000_000), fx(-4_500_000_000), fx(1))
    );
    let from = Vec3::new(fx(1_000_000_000), fx(0), fx(0));
    let to = Vec3::new(fx(3_000_000_000), fx(4_000_000_000), fx(-1_000_000_000));
    assert_eq!(
        from.lerp(to, fx(500_000_000)),
        Vec3::new(fx(2_000_000_000), fx(2_000_000_000), fx(-500_000_000))
    );
    assert_eq!(from.lerp(to, Fixed::zero()), from);
    assert_eq!(from.lerp(to, Fixed::one()), to);
}

#[test]
fn lerp_past_the_end_overshoots() {
    let v = Vec3::new(fx(1_000_000_000), fx(0), fx(0));
    assert_eq!(
        v.lerp(Vec3::zero(), fx(3_000_000_000)),
        Vec3::new(fx(-2_000_000_000), fx(0), fx(0))
    );
}

#[test]
fn is_zero_needs_every_component() {
    assert!(Vec3::zero().is_zero());
    assert!(!Vec3::new(fx(0), fx(0), fx(1)).is_zero());
    assert!(!Vec3::new(fx(0), fx(-1), fx(0)).is_zero());
    assert!(!Vec3::new(fx(1), fx(0), fx(0)).is_zero());
}

#[test]
fn longer_than_is_strict_and_exact() {
    // a 3-4-5 triangle
    let v = Vec3::new(fx(3_000_000_000), fx(0), fx(4_000_000_000));
    assert!(!v.longer_than(fx(5_000_000_000)));
    assert!(v.longer_than(fx(4_999_999_999)));
    assert!(!v.longer_than(fx(5_000_000_001)));
    let w = Vec3::new(fx(3_000_000_000), fx(1), fx(4_000_000_000));
    assert!(w.longer_than(fx(5_000_000_000)));
}

#[test]
fn longer_than_a_negative_length_always() {
    assert!(Vec3::zero().longer_than(fx(-1)));
    assert!(!Vec3::zero().longer_than(fx(0)));
    assert!(Vec3::new(fx(0), fx(1), fx(0)).longer_than(fx(0)));
}

#[test]
fn longer_than_at_the_ends_of_the_range() {
    let v = Vec3::new(fx(i64::MIN), fx(i64::MIN), fx(i64::MIN));
    assert!(v.longer_than(fx(i64::MAX)));
    let w = Vec3::new(fx(i64::MAX), fx(0), fx(0));
    assert!(!w.longer_than(fx(i64::MAX)));
    let u = Vec3::new(fx(i64::MIN), fx(0), fx(0));
    assert!(u.longer_than(fx(i64::MAX)));
}

#[test]
fn root_up_of_small_numbers() {
    let expected: [(u128, u128); 11] = [
        (0, 0),
        (1, 1),
        (2, 2),
        (3, 2),
        (4, 2),
        (5, 3),
        (9, 3),
        (10, 4),
        (15, 4),
        (16, 4),
        (17, 5),
    ];
    for (n, root) in expected {
        assert_eq!(find_root_up(n), root);
    }
}

#[test]
fn root_up_of_large_numbers() {
    assert_eq!(find_root_up(1_000_000_000_000_000_000), 1_000_000_000);
    assert_eq!(find_root_up(1_000_000_000_000_000_001), 1_000_000_001);
    assert_eq!(find_root_up(1u128 << 126), 1u128 << 63);
    assert_eq!(find_root_up(1u128 << 127), 13_043_817_825_332_782_213);
    assert_eq!(find_root_up((1u128 << 127) + 1), 13_043_817_825_332_782_213);
    assert_eq!(MOST_SQUARED, 3 * (1u128 << 126));
    assert_eq!(find_root_up(MOST_SQUARED), 15_975_348_984_942_515_102);
    assert_eq!(find_root_up(MOST_SQUARED - 1), 15_975_348_984_942_515_102);
}

#[test]
fn root_up_is_the_least_number_with_a_square_that_reaches() {
    let mut n: u128 = 0;
    while n < 5_000 {
        let r = find_root_up(n);
        assert!(r * r >= n);
        assert!(r == 0 || (r - 1) * (r - 1) < n);
        n += 1;
    }
}

#[test]
fn clamp_length_max_shortens_a_longer_vector() {
    let v = Vec3::new(fx(3_000_000_000), fx(0), fx(4_000_000_000));
    assert_eq!(
        v.clamp_length_max(fx(1_000_000_000)),
        Vec3::new(fx(600_000_000), fx(0), fx(800_000_000))
    );
    let cube = Vec3::new(fx(1_000_000_000), fx(1_000_000_000), fx(1_000_000_000));
    assert_eq!(
        cube.clamp_length_max(fx(1_000_000_000)),
        Vec3::new(fx(577_350_269), fx(577_350_269), fx(577_350_269))
    );
}

#[test]
fn clamp_length_max_keeps_a_vector_that_is_short_enough() {
    let v = Vec3::new(fx(3_000_000_000), fx(0), fx(4_000_000_000));
    assert_eq!(v.clamp_length_max(fx(5_000_000_000)), v);
    assert_eq!(v.clamp_length_max(fx(6_000_000_000)), v);
    assert_eq!(Vec3::zero().clamp_length_max(fx(0)), Vec3::zero());
}

#[test]
fn clamp_length_max_rounds_the_length_up_and_the_parts_toward_zero() {
    let v = Vec3::new(fx(3_000_000_000), fx(1), fx(4_000_000_000));
    assert_eq!(
        v.clamp_length_max(fx(5_000_000_000)),
        Vec3::new(fx(2_999_999_999), fx(0), fx(3_999_999_999))
    );
    assert_eq!(Vec3::new(fx(1), fx(0), fx(0)).clamp_length_max(fx(0)), Vec3::zero());
    assert_eq!(Vec3::new(fx(5), fx(-5), fx(5)).clamp_length_max(fx(1)), Vec3::zero());
}

#[test]
fn clamp_length_max_with_a_negative_length_turns_the_vector() {
    let v = Vec3::new(fx(3_000_000_000), fx(0), fx(-4_000_000_000));
    assert_eq!(
        v.clamp_length_max(fx(-1_000_000_000)),
        Vec3::new(fx(-600_000_000), fx(0), fx(800_000_000))
    );
    // no longer than the magnitude: kept as it is
    assert_eq!(v.clamp_length_max(fx(-5_000_000_000)), v);
}

#[test]
fn clamp_length_max_at_the_ends_of_the_range() {
    let lowest = Vec3::new(fx(i64::MIN), fx(i64::MIN), fx(i64::MIN));
    let part: i64 = -5_325_116_328_314_171_699;
    assert_eq!(lowest.clamp_length_max(fx(i64::MAX)), Vec3::new(fx(part), fx(part), fx(part)));
    let along = Vec3::new(fx(i64::MAX), fx(0), fx(0));
    assert_eq!(along.clamp_length_max(fx(i64::MIN)), along);
    let low = Vec3::new(fx(i64::MIN), fx(0), fx(0));
    assert_eq!(low.clamp_length_max(fx(i64::MIN)), low);
    let two = Vec3::new(fx(i64::MIN), fx(i64::MIN), fx(0));
    assert_eq!(
        two.clamp_length_max(fx(i64::MIN)),
        Vec3::new(fx(6_521_908_912_666_391_105), fx(6_521_908_912_666_391_105), fx(0))
    );
}

#[test]
fn clamped_vectors_are_never_longer_than_asked() {
    let parts: [i64; 7] = [i64::MIN, -4_000_000_000, -1, 0, 7, 3_000_000_000, i64::MAX];
    let lengths: [i64; 5] = [0, 1, 1_000_000_000, 83_333_335, i64::MAX];
    for x in parts {
        for y in parts {
            for z in parts {
                for max in lengths {
                    let v = Vec3::new(fx(x), fx(y), fx(z));
                    assert!(!v.clamp_length_max(fx(max)).longer_than(fx(max)));
                }
            }
        }
    }
}
