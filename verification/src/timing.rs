//! Timing policy: the named durations, in milliseconds, that the HPD
//! controller and the button classifier consume.

use vstd::prelude::*;

verus! {

/// Minimum HPD low pulse to trigger a re-read of EDID (per HDMI spec).
pub const HPD_PULSE_MIN_MS: u64 = 100;

/// Recommended HPD low pulse duration for reliable detection.
pub const HPD_PULSE_RECOMMENDED_MS: u64 = 200;

/// Long HPD pulse for forcing full re-negotiation.
pub const HPD_PULSE_LONG_MS: u64 = 500;

/// Delay after asserting HPD before the source typically reads EDID.
pub const EDID_READ_DELAY_MS: u64 = 50;

/// Debounce window for the button input.
pub const DEBOUNCE_MS: u64 = 50;

/// Press durations at or above this threshold classify as a long press.
pub const LONG_PRESS_THRESHOLD_MS: u64 = 500;

} // verus!
