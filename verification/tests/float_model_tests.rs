//! The bit-pattern comparisons must agree with the hardware float
//! comparisons on every kind of operand.

use robot_monitor::bits_gt;
use robot_monitor::bits_is_nan;
use robot_monitor::bits_le;

fn interesting_values() -> Vec<f32> {
    vec![
        0.0f32,
        -0.0f32,
        1.0f32,
        -1.0f32,
        0.5f32,
        1.2f32,
        75.0f32,
        80.0f32,
        80.000008f32,
        79.99999f32,
        85.0f32,
        -85.0f32,
        f32::MIN_POSITIVE,
        -f32::MIN_POSITIVE,
        1.0e-40f32,
        -1.0e-40f32,
        f32::MAX,
        f32::MIN,
        f32::INFINITY,
        f32::NEG_INFINITY,
        f32::NAN,
        -f32::NAN,
    ]
}

#[test]
fn gt_matches_hardware_on_all_pairs() {
    let vals = interesting_values();
    for &a in &vals {
        for &b in &vals {
            assert_eq!(
                bits_gt(a.to_bits(), b.to_bits()),
                a > b,
                "gt disagreed on {a} vs {b}"
            );
        }
    }
}

#[test]
fn le_matches_hardware_on_all_pairs() {
    let vals = interesting_values();
    for &a in &vals {
        for &b in &vals {
            assert_eq!(
                bits_le(a.to_bits(), b.to_bits()),
                a <= b,
                "le disagreed on {a} vs {b}"
            );
        }
    }
}

#[test]
fn nan_detection_matches_hardware() {
    let vals = interesting_values();
    for &a in &vals {
        assert_eq!(bits_is_nan(a.to_bits()), a.is_nan());
    }
}

#[test]
fn zero_signs_compare_equal() {
    let pos = 0.0f32.to_bits();
    let neg = (-0.0f32).to_bits();
    assert_ne!(pos, neg);
    assert!(!bits_gt(pos, neg));
    assert!(!bits_gt(neg, pos));
    assert!(bits_le(pos, neg));
    assert!(bits_le(neg, pos));
}
