//! Fixed-point units shared across the library.
//!
//! A quantity that the surrounding process sees as a real number (a proximity
//! reading, a speed parameter) is held as an `i64` count of ten-thousandths:
//! `UNIT` stands for 1.0. Rounding to the nearest integer, with ties going
//! away from zero, is the one rounding rule the library uses.

use vstd::prelude::*;

verus! {

/// Fixed-point representation of 1.0.
pub const UNIT: i64 = 10_000;

/// Largest magnitude, in fixed-point units, that the library accepts for an
/// inbound reading or a speed parameter; keeps every intermediate product of
/// the motor formula inside `i128`.
pub const SIGNAL_BOUND: i64 = 1_000_000_000;

/// Safety floor for the mutable maximum speed: 0.05 in fixed-point units.
pub const MAX_SPEED_FLOOR: i64 = 500;

/// The quotient `n / d` rounded to the nearest integer, ties away from zero.
/// Meaningful for `d > 0`.
pub open spec fn round_to_nearest(n: int, d: int) -> int
    recommends
        d > 0,
{
    if n >= 0 {
        (2 * n + d) / (2 * d)
    } else {
        -((2 * (-n) + d) / (2 * d))
    }
}

/// Rounding to the nearest integer preserves order.
pub proof fn lemma_round_to_nearest_is_ordered(n1: int, n2: int, d: int)
    requires
        n1 <= n2,
        d > 0,
    ensures
        round_to_nearest(n1, d) <= round_to_nearest(n2, d),
{
    if n1 >= 0 {
        vstd::arithmetic::div_mod::lemma_div_is_ordered(2 * n1 + d, 2 * n2 + d, 2 * d);
    } else if n2 < 0 {
        vstd::arithmetic::div_mod::lemma_div_is_ordered(2 * (-n2) + d, 2 * (-n1) + d, 2 * d);
    } else {
        vstd::arithmetic::div_mod::lemma_div_pos_is_pos(2 * (-n1) + d, 2 * d);
        vstd::arithmetic::div_mod::lemma_div_pos_is_pos(2 * n2 + d, 2 * d);
    }
}

/// The raw maximum-speed value after the clamp to the safety floor.
pub open spec fn clamped_max_speed(raw: int) -> int {
    if raw < MAX_SPEED_FLOOR {
        MAX_SPEED_FLOOR as int
    } else {
        raw
    }
}

/// Clamp a raw maximum-speed update upward to the safety floor: the stored
/// value is the maximum of the raw value and the floor.
pub fn clamp_max_speed(raw: i64) -> (clamped: i64)
    ensures
        clamped == clamped_max_speed(raw as int),
        clamped >= MAX_SPEED_FLOOR,
        raw >= MAX_SPEED_FLOOR ==> clamped == raw,
{
    if raw < MAX_SPEED_FLOOR {
        MAX_SPEED_FLOOR
    } else {
        raw
    }
}

} // verus!
