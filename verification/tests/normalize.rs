//! The value conversions on nominal, boundary, and out-of-range samples.

use gamepad2midi::ANALOG_ONE;
use gamepad2midi::centered_to_midi;
use gamepad2midi::unsigned_to_midi;

/// Scales a float reading the way the device shell does before handing a
/// sample to the library: by the fixed-point unit, flooring.
fn scaled(pos: f32) -> i32 {
    (pos * ANALOG_ONE as f32).floor() as i32
}

#[test]
fn unsigned_endpoints() {
    assert_eq!(unsigned_to_midi(0), 0);
    assert_eq!(unsigned_to_midi(ANALOG_ONE), 127);
    assert_eq!(unsigned_to_midi(scaled(0.0)), 0);
    assert_eq!(unsigned_to_midi(scaled(1.0)), 127);
}

#[test]
fn unsigned_midpoint() {
    // A half-pressed trigger: round(0.5 * 128) == 64.
    assert_eq!(unsigned_to_midi(scaled(0.5)), 64);
}

#[test]
fn unsigned_monotone_samples() {
    let mut last = 0u8;
    let mut raw = -2 * ANALOG_ONE;
    while raw <= 2 * ANALOG_ONE {
        let v = unsigned_to_midi(raw);
        assert!(v >= last);
        assert!(v <= 127);
        last = v;
        raw += 7;
    }
}

#[test]
fn centered_endpoints() {
    assert_eq!(centered_to_midi(0), 64);
    assert_eq!(centered_to_midi(-ANALOG_ONE), 0);
    assert_eq!(centered_to_midi(ANALOG_ONE), 127);
    assert_eq!(centered_to_midi(scaled(0.0)), 64);
    assert_eq!(centered_to_midi(scaled(-1.0)), 0);
    assert_eq!(centered_to_midi(scaled(1.0)), 127);
}

#[test]
fn centered_half_deflections() {
    assert_eq!(centered_to_midi(scaled(0.5)), 96);
    assert_eq!(centered_to_midi(scaled(-0.5)), 32);
}

#[test]
fn rounds_to_nearest_value() {
    // round(6 * 128 / 1024) == round(0.75) == 1, not the truncated 0.
    assert_eq!(unsigned_to_midi(6), 1);
    assert_eq!(unsigned_to_midi(3), 0);
    // Halves round upward.
    assert_eq!(unsigned_to_midi(4), 1);
    // round(64 +/- 0.75) == 65 and 63.
    assert_eq!(centered_to_midi(12), 65);
    assert_eq!(centered_to_midi(-12), 63);
}

#[test]
fn out_of_range_clamps() {
    // Readings far outside the nominal ranges clamp, never fail.
    assert_eq!(unsigned_to_midi(scaled(2.0)), 127);
    assert_eq!(unsigned_to_midi(scaled(-5.0)), 0);
    assert_eq!(centered_to_midi(scaled(2.0)), 127);
    assert_eq!(centered_to_midi(scaled(-5.0)), 0);
    assert_eq!(unsigned_to_midi(i32::MAX), 127);
    assert_eq!(unsigned_to_midi(i32::MIN), 0);
    assert_eq!(centered_to_midi(i32::MAX), 127);
    assert_eq!(centered_to_midi(i32::MIN), 0);
}
