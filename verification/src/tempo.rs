//! Conversion of a mean inter-hit interval into a displayable tempo.
//!
//! Tempo is measured in beats per minute: sixty seconds divided by the
//! mean interval. To keep the arithmetic exact, the tempo is returned
//! scaled by ten to the display precision and rounded to the nearest
//! unit, so the caller places the decimal point instead of dividing
//! floating-point numbers.

use vstd::prelude::*;

verus! {

/// Nanoseconds in one minute.
pub const NANOS_PER_MIN: u64 = 60_000_000_000;

/// The display precision is capped at five decimal digits.
pub const MAX_PRECISION: u8 = 5;

/// Ten raised to `e`.
pub open spec fn pow10(e: nat) -> nat
    decreases e,
{
    if e == 0 {
        1
    } else {
        10 * pow10((e - 1) as nat)
    }
}

/// The precision actually used for display: precisions above five are
/// treated as five.
pub open spec fn clamped_precision(p: u8) -> nat {
    if p > MAX_PRECISION { MAX_PRECISION as nat } else { p as nat }
}

/// The tempo implied by a mean interval of `interval_nanos`, in beats per
/// minute scaled by ten to the (clamped) precision and rounded to the
/// nearest unit; absent when the interval is zero, since two hits at one
/// instant imply no finite tempo.
pub open spec fn tempo_scaled_spec(interval_nanos: u64, precision: u8) -> Option<u64> {
    if interval_nanos == 0 {
        None
    } else {
        Some(
            (((NANOS_PER_MIN * pow10(clamped_precision(precision))) + interval_nanos as int / 2)
                / interval_nanos as int) as u64,
        )
    }
}

/// Converts a mean inter-hit interval to beats per minute, scaled by ten
/// to the display precision (capped at five digits) and rounded to the
/// nearest unit. A zero interval — two hits at the same instant, possible
/// with a coarse clock — yields no tempo rather than an infinite one.
pub fn tempo_scaled(interval_nanos: u64, precision: u8) -> (r: Option<u64>)
    ensures
        r == tempo_scaled_spec(interval_nanos, precision),
        r is Some <==> interval_nanos > 0,
{
    if interval_nanos == 0 {
        return None;
    }
    let p: u8 = if precision > MAX_PRECISION { MAX_PRECISION } else { precision };
    let mut scale: u64 = 1;
    let mut i: u8 = 0;
    while i < p
        invariant
            i <= p,
            p <= MAX_PRECISION,
            scale == pow10(i as nat),
            scale <= 100_000,
        decreases p - i,
    {
        proof {
            lemma_pow10_bounds(p as nat);
            lemma_pow10_bounds(i as nat);
            lemma_pow10_bounds((i + 1) as nat);
        }
        scale = scale * 10;
        i = i + 1;
    }
    proof {
        lemma_pow10_bounds(p as nat);
    }
    let numerator: u64 = NANOS_PER_MIN * scale + interval_nanos / 2;
    Some(numerator / interval_nanos)
}

/// Ten to a display precision is at least one and at most one hundred
/// thousand.
pub proof fn lemma_pow10_bounds(e: nat)
    requires
        e <= MAX_PRECISION,
    ensures
        1 <= pow10(e) <= 100_000,
{
    reveal_with_fuel(pow10, 6);
}

} // verus!
