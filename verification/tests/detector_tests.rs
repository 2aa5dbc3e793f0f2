//! The anomaly detector: a strict temperature threshold on one sample.

use robot_monitor::AnomalyDetector;
use robot_monitor::Reading;
use robot_monitor::detector::DEFAULT_THRESHOLD_BITS;

fn reading(temperature: f32) -> Reading {
    Reading::new(temperature.to_bits(), 0.5f32.to_bits(), 1.2f32.to_bits())
}

#[test]
fn default_threshold_is_eighty() {
    assert_eq!(DEFAULT_THRESHOLD_BITS, 80.0f32.to_bits());
}

#[test]
fn below_threshold_is_normal() {
    let d = AnomalyDetector::new(80.0f32.to_bits());
    assert!(!d.evaluate(&reading(75.0)));
    assert!(!d.evaluate(&reading(0.0)));
    assert!(!d.evaluate(&reading(-100.0)));
    assert!(!d.evaluate(&reading(79.99999)));
}

#[test]
fn above_threshold_is_anomalous() {
    let d = AnomalyDetector::new(80.0f32.to_bits());
    assert!(d.evaluate(&reading(85.0)));
    assert!(d.evaluate(&reading(80.000008)));
    assert!(d.evaluate(&reading(f32::INFINITY)));
}

#[test]
fn boundary_equals_threshold_is_normal() {
    let d = AnomalyDetector::new(80.0f32.to_bits());
    assert!(!d.evaluate(&reading(80.0)));
}

#[test]
fn nan_temperature_is_normal() {
    let d = AnomalyDetector::new(80.0f32.to_bits());
    assert!(!d.evaluate(&reading(f32::NAN)));
    assert!(!d.evaluate(&reading(-f32::NAN)));
}

#[test]
fn nan_threshold_judges_everything_normal() {
    let d = AnomalyDetector::new(f32::NAN.to_bits());
    assert!(!d.evaluate(&reading(85.0)));
    assert!(!d.evaluate(&reading(f32::INFINITY)));
}

#[test]
fn threshold_is_configurable() {
    let d = AnomalyDetector::new(70.0f32.to_bits());
    assert!(d.evaluate(&reading(75.0)));
    assert!(!d.evaluate(&reading(65.0)));
}
