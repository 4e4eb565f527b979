//! Tests of the three quartile policies.
//!
//! Library values are scaled by 200; the helper below divides them out so
//! that expected values can be written as the exact decimal fractions the
//! policies produce.

use quartiles::summary::Quartiles;

fn as_floats(q: &Quartiles) -> [f64; 5] {
    let v = q.values();
    [
        v[0] as f64 / 200.0,
        v[1] as f64 / 200.0,
        v[2] as f64 / 200.0,
        v[3] as f64 / 200.0,
        v[4] as f64 / 200.0,
    ]
}

#[test]
fn test_low_inputs() {
    assert_eq!(
        as_floats(&Quartiles::new(&[15])),
        [15.0, 15.0, 15.0, 15.0, 15.0]
    );
    assert_eq!(
        as_floats(&Quartiles::real_fences(&[15])),
        [15.0, 15.0, 15.0, 15.0, 15.0]
    );
    assert_eq!(
        as_floats(&Quartiles::new(&[10, 20])),
        [5.0, 12.5, 15.0, 17.5, 25.0]
    );
    assert_eq!(
        as_floats(&Quartiles::real_fences(&[10, 20])),
        [10.0, 10.0, 15.0, 20.0, 20.0]
    );
    assert_eq!(
        as_floats(&Quartiles::new(&[10, 20, 30])),
        [0.0, 15.0, 20.0, 25.0, 40.0]
    );
    assert_eq!(
        as_floats(&Quartiles::real_fences(&[10, 20, 30])),
        [10.0, 10.0, 20.0, 30.0, 30.0]
    );
    assert_eq!(
        as_floats(&Quartiles::real_fences(&[10, 20, 30, 40])),
        [10.0, 12.5, 25.0, 37.5, 40.0]
    );
    assert_eq!(
        as_floats(&Quartiles::real_fences(&[7, 15, 36, 39, 40, 41])),
        [7.0, 13.0, 37.5, 40.25, 41.0]
    );
    assert_eq!(
        as_floats(&Quartiles::real_fences(&[6, 7, 15, 36, 39, 40, 41, 42, 43, 47, 49])),
        [6.0, 15.0, 40.0, 43.0, 49.0]
    );
}

#[test]
fn test_linear_six_values() {
    let q = Quartiles::new(&[7, 15, 36, 39, 40, 41]);
    assert_eq!(as_floats(&q), [-9.0, 20.25, 37.5, 39.75, 69.0]);
    assert_eq!(q.median(), 7500);
    assert_eq!(q.median() as f64 / 200.0, 37.5);
}

#[test]
fn test_fair_six_values() {
    let q = Quartiles::fair(&[7, 15, 36, 39, 40, 41]);
    assert_eq!(as_floats(&q), [7.0, 13.0, 37.5, 40.25, 41.0]);
    assert_eq!(q.median() as f64 / 200.0, 37.5);
}

#[test]
fn test_single_element_all_policies() {
    assert_eq!(as_floats(&Quartiles::new(&[42])), [42.0; 5]);
    assert_eq!(as_floats(&Quartiles::real_fences(&[42])), [42.0; 5]);
    assert_eq!(as_floats(&Quartiles::fair(&[42])), [42.0; 5]);
}

#[test]
fn test_order_invariance() {
    let sorted = [7, 15, 36, 39, 40, 41];
    let shuffled = [41, 7, 39, 36, 15, 40];
    assert_eq!(
        Quartiles::new(&sorted).values(),
        Quartiles::new(&shuffled).values()
    );
    assert_eq!(
        Quartiles::real_fences(&sorted).values(),
        Quartiles::real_fences(&shuffled).values()
    );
    assert_eq!(
        Quartiles::fair(&sorted).values(),
        Quartiles::fair(&shuffled).values()
    );
}

#[test]
fn test_fair_fences_clamped_to_extrema() {
    // A wide whisker is pulled back to the data extrema.
    let q = Quartiles::fair(&[10, 20]);
    assert_eq!(as_floats(&q), [10.0, 10.0, 15.0, 20.0, 20.0]);
}

#[test]
fn test_fair_fences_inside_extrema() {
    // A tight interquartile range keeps the Tukey fences strictly inside
    // the sample range.
    let q = Quartiles::fair(&[0, 100, 100, 100, 100, 100, 100, 200]);
    assert_eq!(as_floats(&q), [100.0, 100.0, 100.0, 100.0, 100.0]);
    let v = q.values();
    assert!(0 * 200 <= v[0] && v[4] <= 200 * 200);
}

#[test]
fn test_summaries_are_monotone() {
    let samples: [&[i64]; 4] = [
        &[3],
        &[9, -4],
        &[5, 5, 5, 5],
        &[12, -7, 100, 42, 0, 3, 3],
    ];
    for s in samples {
        for q in [
            Quartiles::new(s),
            Quartiles::real_fences(s),
            Quartiles::fair(s),
        ] {
            let v = q.values();
            assert!(v[0] <= v[1] && v[1] <= v[2] && v[2] <= v[3] && v[3] <= v[4]);
        }
    }
}

#[test]
fn test_negative_values() {
    let q = Quartiles::new(&[-10, -20]);
    assert_eq!(as_floats(&q), [-25.0, -17.5, -15.0, -12.5, -5.0]);
}

#[test]
fn test_equal_values() {
    assert_eq!(as_floats(&Quartiles::new(&[5, 5, 5])), [5.0; 5]);
    assert_eq!(as_floats(&Quartiles::real_fences(&[5, 5, 5])), [5.0; 5]);
    assert_eq!(as_floats(&Quartiles::fair(&[5, 5, 5])), [5.0; 5]);
}

#[test]
fn test_extreme_sample_values() {
    // The full i64 range stays exact in the scaled representation.
    let q = Quartiles::new(&[i64::MIN, i64::MAX]);
    let lo = i64::MIN as i128;
    let hi = i64::MAX as i128;
    let span = hi - lo;
    let lower: i128 = 200 * lo + 50 * span;
    let upper: i128 = 200 * lo + 150 * span;
    let whisker: i128 = 3 * (upper - lower) / 2;
    assert_eq!(
        q.values(),
        [
            lower - whisker,
            lower,
            200 * lo + 100 * span,
            upper,
            upper + whisker,
        ]
    );
}

#[test]
fn test_values_order_and_median_agree() {
    let q = Quartiles::real_fences(&[10, 20, 30, 40]);
    let v = q.values();
    assert_eq!(v[2], q.median());
}
