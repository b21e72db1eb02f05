//! Runtime configuration and the idle-reset policy.

use vstd::prelude::*;

verus! {

/// Settings that drive the estimator.
///
/// `precision` is the number of decimal digits to display (values above
/// five are treated as five wherever a tempo is scaled for display);
/// `reset_time` is the idle duration, in seconds, after which the window
/// is cleared; `sample_size` is the capacity of the sample window and must
/// be at least two to yield an interval.
#[derive(Debug, Clone, Copy)]
pub struct Config {
    /// Decimal digits in the displayed tempo (at most five are used).
    pub precision: u8,
    /// Idle seconds after which the estimation resets.
    pub reset_time: u32,
    /// Capacity of the sample window.
    pub sample_size: u32,
}

impl Default for Config {
    /// The stock settings: whole-number display, a five second idle reset,
    /// and a window of five samples.
    fn default() -> (r: Config)
        ensures
            r.precision == 0,
            r.reset_time == 5,
            r.sample_size == 5,
    {
        Config { precision: 0, reset_time: 5, sample_size: 5 }
    }
}

/// Nanoseconds in one second.
pub const NANOS_PER_SEC: u64 = 1_000_000_000;

/// Decides whether a pause has outlived the idle-reset threshold: true
/// exactly when `elapsed_nanos` exceeds `reset_time` whole seconds. The
/// caller then clears the window before recording the next hit, so a long
/// pause restarts the estimation instead of being averaged in.
pub fn idle_expired(elapsed_nanos: u64, reset_time: u32) -> (r: bool)
    ensures
        r <==> elapsed_nanos > reset_time * NANOS_PER_SEC,
{
    elapsed_nanos > (reset_time as u64) * NANOS_PER_SEC
}

} // verus!
