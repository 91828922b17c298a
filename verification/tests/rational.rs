use rusty_ffmpeg::ffi::{av_cmp_q, av_inv_q, av_make_q, AVRational};

#[test]
fn make_q_keeps_the_pair_as_given() {
    assert_eq!(av_make_q(3, 4), AVRational { num: 3, den: 4 });
    assert_eq!(av_make_q(6, 8), AVRational { num: 6, den: 8 });
    assert_eq!(av_make_q(1, 0), AVRational { num: 1, den: 0 });
    assert_eq!(av_make_q(0, 0), AVRational { num: 0, den: 0 });
    assert_eq!(av_make_q(i32::MIN, -1), AVRational { num: i32::MIN, den: -1 });
}

#[test]
fn equal_fractions_compare_as_zero() {
    assert_eq!(av_cmp_q(av_make_q(1, 2), av_make_q(1, 2)), 0);
    assert_eq!(av_cmp_q(av_make_q(1, 2), av_make_q(2, 4)), 0);
    assert_eq!(av_cmp_q(av_make_q(0, 1), av_make_q(0, 7)), 0);
    assert_eq!(av_cmp_q(av_make_q(30000, 1001), av_make_q(60000, 2002)), 0);
}

#[test]
fn equal_fractions_with_negative_denominators_compare_as_zero() {
    assert_eq!(av_cmp_q(av_make_q(1, -2), av_make_q(-2, 4)), 0);
    assert_eq!(av_cmp_q(av_make_q(-1, -2), av_make_q(1, 2)), 0);
    assert_eq!(av_cmp_q(av_make_q(-3, -6), av_make_q(-1, -2)), 0);
    assert_eq!(av_cmp_q(av_make_q(0, -1), av_make_q(0, 1)), 0);
}

#[test]
fn zero_result_goes_with_equal_cross_products() {
    let values = [-7, -2, -1, 0, 1, 2, 3, 12];
    let denominators = [-6, -3, -1, 1, 2, 4, 9];
    for &a in &values {
        for &b in &denominators {
            for &c in &values {
                for &d in &denominators {
                    let zero = av_cmp_q(av_make_q(a, b), av_make_q(c, d)) == 0;
                    assert_eq!(zero, a * d == c * b);
                }
            }
        }
    }
}

#[test]
fn larger_and_smaller_fractions() {
    assert_eq!(av_cmp_q(av_make_q(1, 2), av_make_q(1, 3)), 1);
    assert_eq!(av_cmp_q(av_make_q(1, 3), av_make_q(1, 2)), -1);
    assert_eq!(av_cmp_q(av_make_q(-1, 2), av_make_q(1, 3)), -1);
    assert_eq!(av_cmp_q(av_make_q(25, 1), av_make_q(30000, 1001)), -1);
    assert_eq!(av_cmp_q(av_make_q(30, 1), av_make_q(30000, 1001)), 1);
}

#[test]
fn sign_of_each_denominator_is_accounted_for() {
    // 1/2 against -1/3, written with the sign in either place
    assert_eq!(av_cmp_q(av_make_q(1, 2), av_make_q(1, -3)), 1);
    assert_eq!(av_cmp_q(av_make_q(1, 2), av_make_q(-1, 3)), 1);
    assert_eq!(av_cmp_q(av_make_q(-1, -2), av_make_q(1, -3)), 1);
    assert_eq!(av_cmp_q(av_make_q(1, -3), av_make_q(1, 2)), -1);
    assert_eq!(av_cmp_q(av_make_q(1, -3), av_make_q(-1, -2)), -1);
    // -1/2 against -1/3
    assert_eq!(av_cmp_q(av_make_q(1, -2), av_make_q(1, -3)), -1);
    assert_eq!(av_cmp_q(av_make_q(1, -3), av_make_q(1, -2)), 1);
}

#[test]
fn zero_over_zero_gives_the_sentinel() {
    assert_eq!(av_cmp_q(av_make_q(0, 0), av_make_q(0, 0)), i32::MIN);
    assert_ne!(av_cmp_q(av_make_q(0, 0), av_make_q(0, 0)), 0);
    assert_eq!(av_cmp_q(av_make_q(0, 0), av_make_q(1, 2)), i32::MIN);
    assert_eq!(av_cmp_q(av_make_q(1, 2), av_make_q(0, 0)), i32::MIN);
    assert_eq!(av_cmp_q(av_make_q(0, 0), av_make_q(1, 0)), i32::MIN);
    assert_eq!(av_cmp_q(av_make_q(-1, 0), av_make_q(0, 0)), i32::MIN);
    assert_eq!(av_cmp_q(av_make_q(0, 0), av_make_q(0, 5)), i32::MIN);
}

#[test]
fn zero_denominators_compare_as_infinities() {
    assert_eq!(av_cmp_q(av_make_q(1, 0), av_make_q(2, 0)), 0);
    assert_eq!(av_cmp_q(av_make_q(-1, 0), av_make_q(-9, 0)), 0);
    assert_eq!(av_cmp_q(av_make_q(1, 0), av_make_q(-1, 0)), 1);
    assert_eq!(av_cmp_q(av_make_q(-1, 0), av_make_q(1, 0)), -1);
    assert_eq!(av_cmp_q(av_make_q(1, 0), av_make_q(5, 1)), 1);
    assert_eq!(av_cmp_q(av_make_q(5, 1), av_make_q(1, 0)), -1);
    assert_eq!(av_cmp_q(av_make_q(-1, 0), av_make_q(5, 1)), -1);
    assert_eq!(av_cmp_q(av_make_q(5, -1), av_make_q(-1, 0)), 1);
    assert_eq!(av_cmp_q(av_make_q(1, 0), av_make_q(0, 1)), 1);
}

#[test]
fn extreme_values_do_not_overflow() {
    assert_eq!(av_cmp_q(av_make_q(i32::MAX, 1), av_make_q(i32::MIN, 1)), 1);
    assert_eq!(av_cmp_q(av_make_q(i32::MIN, 1), av_make_q(i32::MAX, 1)), -1);
    assert_eq!(av_cmp_q(av_make_q(i32::MIN, i32::MIN), av_make_q(i32::MAX, i32::MAX)), 0);
    // -2^31 / (2^31 - 1) lies just below -1, (2^31 - 1) / -2^31 just above it
    assert_eq!(av_cmp_q(av_make_q(i32::MIN, i32::MAX), av_make_q(i32::MAX, i32::MIN)), -1);
    assert_eq!(av_cmp_q(av_make_q(i32::MAX, i32::MIN), av_make_q(i32::MIN, i32::MAX)), 1);
    assert_eq!(av_cmp_q(av_make_q(1, i32::MIN), av_make_q(1, i32::MAX)), -1);
    assert_eq!(av_cmp_q(av_make_q(i32::MIN, i32::MIN), av_make_q(i32::MIN, i32::MIN)), 0);
}

#[test]
fn neighbours_that_floating_point_confuses_are_told_apart() {
    let a = av_make_q(2147483647, 2147483646);
    let b = av_make_q(2147483646, 2147483645);
    assert_eq!(f64::from(a.num) / f64::from(a.den), f64::from(b.num) / f64::from(b.den));
    assert_eq!(av_cmp_q(a, b), -1);
    assert_eq!(av_cmp_q(b, a), 1);
}

#[test]
fn exchanging_the_sides_reverses_the_result() {
    let fractions = [
        av_make_q(1, 2),
        av_make_q(-1, 2),
        av_make_q(3, -4),
        av_make_q(7, 0),
        av_make_q(-7, 0),
        av_make_q(0, 3),
        av_make_q(i32::MIN, 3),
    ];
    for &a in &fractions {
        assert_eq!(av_cmp_q(a, a), 0);
        for &b in &fractions {
            assert_eq!(av_cmp_q(b, a), -av_cmp_q(a, b));
        }
    }
}

#[test]
fn comparison_is_transitive_on_a_sample() {
    let fractions = [
        av_make_q(-1, 0),
        av_make_q(-5, 2),
        av_make_q(5, -2),
        av_make_q(0, 1),
        av_make_q(1, 3),
        av_make_q(2, 6),
        av_make_q(7, 2),
        av_make_q(1, 0),
    ];
    for &a in &fractions {
        for &b in &fractions {
            for &c in &fractions {
                if av_cmp_q(a, b) <= 0 && av_cmp_q(b, c) <= 0 {
                    assert!(av_cmp_q(a, c) <= 0);
                    if av_cmp_q(a, b) < 0 || av_cmp_q(b, c) < 0 {
                        assert_eq!(av_cmp_q(a, c), -1);
                    }
                }
            }
        }
    }
}

#[test]
fn inv_q_exchanges_numerator_and_denominator() {
    assert_eq!(av_inv_q(av_make_q(3, 4)), AVRational { num: 4, den: 3 });
    assert_eq!(av_inv_q(av_make_q(-3, 4)), AVRational { num: 4, den: -3 });
    assert_eq!(av_inv_q(av_make_q(5, 0)), AVRational { num: 0, den: 5 });
    assert_eq!(av_inv_q(av_make_q(0, 5)), AVRational { num: 5, den: 0 });
    assert_eq!(av_inv_q(av_make_q(0, 0)), AVRational { num: 0, den: 0 });
}

#[test]
fn inv_q_twice_gives_the_fraction_back() {
    for &(num, den) in &[(1, 2), (-3, 4), (7, -9), (i32::MAX, i32::MIN), (1, 0), (0, 1)] {
        let q = av_make_q(num, den);
        assert_eq!(av_inv_q(av_inv_q(q)), q);
    }
}
