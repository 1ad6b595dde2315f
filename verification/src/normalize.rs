//! Conversion of raw analog samples into the MIDI 7-bit value range.
//!
//! Analog positions are carried as fixed-point integers: `ANALOG_ONE` stands
//! for a raw reading of one full unit, so a trigger's nominal range `[0.0,
//! 1.0]` arrives as `[0, ANALOG_ONE]` and a stick axis's nominal range
//! `[-1.0, 1.0]` arrives as `[-ANALOG_ONE, ANALOG_ONE]`. The caller that
//! polls the device scales its readings by `ANALOG_ONE`, flooring, before
//! handing them over. Both conversions round to the nearest data byte
//! (halves upward) and are total: readings outside the nominal range are
//! clamped into `0..=127`, never rejected, so out-of-range sensor noise can
//! never fail the translation pipeline.

use vstd::prelude::*;

verus! {

/// Fixed-point scale of raw analog samples: this raw value stands for a
/// full-scale reading of one unit.
pub const ANALOG_ONE: i32 = 1024;

/// Clamps an arbitrary integer into the MIDI data-byte range `0..=127`.
pub open spec fn clamp_to_data_range(v: int) -> int {
    if v < 0 {
        0
    } else if v > 127 {
        127
    } else {
        v
    }
}

/// Value of the unsigned conversion: a raw sample in `[0, ANALOG_ONE]`
/// (standing for `[0.0, 1.0]`) scaled onto `0..=127` and rounded to the
/// nearest value (halves upward), out-of-range samples clamped. Adding half
/// the divisor before the floor division is that rounding: the result is
/// `clamp(round(raw * 128 / ANALOG_ONE))`.
pub open spec fn spec_unsigned_to_midi(raw: int) -> int {
    clamp_to_data_range((raw + 4) / 8)
}

/// Value of the centered conversion: a raw sample in
/// `[-ANALOG_ONE, ANALOG_ONE]` (standing for `[-1.0, 1.0]`) shifted and
/// scaled onto `0..=127` and rounded to the nearest value (halves upward),
/// out-of-range samples clamped. The offset is `64 * 16 + 8`: the midpoint
/// shift plus half the divisor, so the result is
/// `clamp(round(64 + raw * 64 / ANALOG_ONE))`.
pub open spec fn spec_centered_to_midi(raw: int) -> int {
    clamp_to_data_range((raw + 1032) / 16)
}

/// Converts a raw unsigned analog sample (trigger pressure) into a MIDI data
/// byte.
pub fn unsigned_to_midi(raw: i32) -> (v: u8)
    ensures
        v == spec_unsigned_to_midi(raw as int),
        v <= 127,
{
    if raw <= 3 {
        0
    } else {
        let q: u32 = (raw as u32 + 4) / 8;
        if q > 127 {
            127
        } else {
            q as u8
        }
    }
}

/// Converts a raw centered analog sample (stick deflection) into a MIDI data
/// byte.
pub fn centered_to_midi(raw: i32) -> (v: u8)
    ensures
        v == spec_centered_to_midi(raw as int),
        v <= 127,
{
    let s: i64 = raw as i64 + 1032;
    if s < 0 {
        0
    } else {
        let q: u64 = (s as u64) / 16;
        if q > 127 {
            127
        } else {
            q as u8
        }
    }
}

/// Both conversions always land in the MIDI data-byte range, whatever the
/// raw sample was: out-of-range input is clamped, never an error.
pub proof fn lemma_conversions_total(raw: int)
    ensures
        0 <= spec_unsigned_to_midi(raw) <= 127,
        0 <= spec_centered_to_midi(raw) <= 127,
{
}

/// The unsigned conversion is monotonically non-decreasing in the raw
/// sample.
pub proof fn lemma_unsigned_monotone(a: int, b: int)
    requires
        a <= b,
    ensures
        spec_unsigned_to_midi(a) <= spec_unsigned_to_midi(b),
{
    assert((a + 4) / 8 <= (b + 4) / 8) by {
        vstd::arithmetic::div_mod::lemma_div_is_ordered(a + 4, b + 4, 8);
    }
}

/// The unsigned conversion maps the nominal endpoints 0 and `ANALOG_ONE`
/// to the extreme data bytes 0 and 127.
pub proof fn lemma_unsigned_endpoints()
    ensures
        spec_unsigned_to_midi(0) == 0,
        spec_unsigned_to_midi(ANALOG_ONE as int) == 127,
{
}

/// The centered conversion maps the nominal range onto `0..=127` with the
/// rest point at the midpoint 64 and the extremes at 0 and 127.
pub proof fn lemma_centered_endpoints()
    ensures
        spec_centered_to_midi(0) == 64,
        spec_centered_to_midi(-ANALOG_ONE as int) == 0,
        spec_centered_to_midi(ANALOG_ONE as int) == 127,
{
}

} // verus!
