//! The signal transformer: a pure map from a proximity reading and the speed
//! parameters to an integer motor-intensity command, together with the
//! diagnostic proximity bar.

use vstd::prelude::*;
use crate::units::{UNIT, SIGNAL_BOUND, round_to_nearest, lemma_round_to_nearest_is_ordered};

verus! {

/// Numerator of the fixed hardware-intensity factor 0.66.
pub const INTENSITY_NUM: i64 = 66;

/// Denominator of the fixed hardware-intensity factor 0.66.
pub const INTENSITY_DEN: i64 = 100;

/// Full-scale motor intensity.
pub const MOTOR_RANGE: i64 = 255;

/// Divisor that takes the integer numerator of the motor formula back to
/// whole motor units: one `UNIT` each for the proximity, the speed spread and
/// the scale, and the intensity-factor denominator.
pub const MOTOR_DIVISOR: i64 = 100_000_000_000_000;

/// Integer numerator of the motor formula over fixed-point arguments:
/// `((max_speed - min_speed) * proximity + min_speed) * 0.66 * speed_scale * 255`
/// with every division deferred to `MOTOR_DIVISOR`.
pub open spec fn motor_numerator(
    proximity: int,
    max_speed: int,
    min_speed: int,
    speed_scale: int,
) -> int {
    ((max_speed - min_speed) * proximity + min_speed * 10_000) * 66 * speed_scale * 255
}

/// The motor command for a proximity reading: the motor formula rounded to
/// the nearest integer, ties away from zero.
pub open spec fn motor_command_spec(
    proximity: int,
    max_speed: int,
    min_speed: int,
    speed_scale: int,
) -> int {
    round_to_nearest(
        motor_numerator(proximity, max_speed, min_speed, speed_scale),
        MOTOR_DIVISOR as int,
    )
}

/// Round the motor-formula numerator to whole motor units.
fn round_motor_numerator(numerator: i128) -> (rounded: i64)
    requires
        -100_000_000_000_000_000_000_000_000_000_000 <= numerator
            <= 100_000_000_000_000_000_000_000_000_000_000,
    ensures
        rounded == round_to_nearest(numerator as int, MOTOR_DIVISOR as int),
{
    let divisor: u128 = MOTOR_DIVISOR as u128;
    if numerator >= 0 {
        let m: u128 = numerator as u128;
        let q: u128 = (2 * m + divisor) / (2 * divisor);
        proof {
            vstd::arithmetic::div_mod::lemma_div_is_ordered(
                2 * (numerator as int) + MOTOR_DIVISOR as int,
                2 * 100_000_000_000_000_000_000_000_000_000_000 + MOTOR_DIVISOR as int,
                2 * MOTOR_DIVISOR as int,
            );
            vstd::arithmetic::div_mod::lemma_div_pos_is_pos(
                2 * (numerator as int) + MOTOR_DIVISOR as int,
                2 * MOTOR_DIVISOR as int,
            );
        }
        q as i64
    } else {
        let m: u128 = (-numerator) as u128;
        let q: u128 = (2 * m + divisor) / (2 * divisor);
        proof {
            vstd::arithmetic::div_mod::lemma_div_is_ordered(
                2 * (-(numerator as int)) + MOTOR_DIVISOR as int,
                2 * 100_000_000_000_000_000_000_000_000_000_000 + MOTOR_DIVISOR as int,
                2 * MOTOR_DIVISOR as int,
            );
            vstd::arithmetic::div_mod::lemma_div_pos_is_pos(
                2 * (-(numerator as int)) + MOTOR_DIVISOR as int,
                2 * MOTOR_DIVISOR as int,
            );
        }
        -(q as i64)
    }
}

/// Map a proximity reading and the current speed parameters to the motor
/// command the device is sent.
pub fn motor_command(
    proximity: i64,
    max_speed: i64,
    min_speed: i64,
    speed_scale: i64,
) -> (command: i64)
    requires
        -SIGNAL_BOUND <= proximity <= SIGNAL_BOUND,
        -SIGNAL_BOUND <= max_speed <= SIGNAL_BOUND,
        -SIGNAL_BOUND <= min_speed <= SIGNAL_BOUND,
        -SIGNAL_BOUND <= speed_scale <= SIGNAL_BOUND,
    ensures
        command == motor_command_spec(
            proximity as int,
            max_speed as int,
            min_speed as int,
            speed_scale as int,
        ),
{
    let spread: i128 = max_speed as i128 - min_speed as i128;
    let prox: i128 = proximity as i128;
    assert(-2_000_000_000_000_000_000 <= spread * prox <= 2_000_000_000_000_000_000)
        by (nonlinear_arith)
        requires
            -2_000_000_000 <= spread <= 2_000_000_000,
            -1_000_000_000 <= prox <= 1_000_000_000,
    ;
    let base: i128 = spread * prox + (min_speed as i128) * 10_000;
    let scaled: i128 = base * 66;
    let factor: i128 = speed_scale as i128;
    assert(-200_000_000_000_000_000_000_000_000_000 <= scaled * factor
        <= 200_000_000_000_000_000_000_000_000_000)
        by (nonlinear_arith)
        requires
            -200_000_000_000_000_000_000 <= scaled <= 200_000_000_000_000_000_000,
            -1_000_000_000 <= factor <= 1_000_000_000,
    ;
    let numerator: i128 = scaled * factor * 255;
    round_motor_numerator(numerator)
}

/// With the maximum speed at or above the minimum and a scale in `[0, 1]`,
/// the motor command never decreases as the proximity reading grows.
pub proof fn lemma_motor_command_monotonic(
    v1: int,
    v2: int,
    max_speed: int,
    min_speed: int,
    speed_scale: int,
)
    requires
        v1 <= v2,
        min_speed <= max_speed,
        0 <= speed_scale <= UNIT,
    ensures
        motor_command_spec(v1, max_speed, min_speed, speed_scale)
            <= motor_command_spec(v2, max_speed, min_speed, speed_scale),
{
    assert(((max_speed - min_speed) * v1 + min_speed * 10_000) * 66 * speed_scale * 255
        <= ((max_speed - min_speed) * v2 + min_speed * 10_000) * 66 * speed_scale * 255)
        by (nonlinear_arith)
        requires
            v1 <= v2,
            min_speed <= max_speed,
            0 <= speed_scale,
    ;
    lemma_round_to_nearest_is_ordered(
        motor_numerator(v1, max_speed, min_speed, speed_scale),
        motor_numerator(v2, max_speed, min_speed, speed_scale),
        MOTOR_DIVISOR as int,
    );
}

/// With a minimum speed of zero, a proximity reading of zero maps to a motor
/// command of zero, whatever the maximum speed and the scale.
pub proof fn lemma_motor_command_zero(max_speed: int, speed_scale: int)
    ensures
        motor_command_spec(0, max_speed, 0, speed_scale) == 0,
{
    assert((max_speed - 0) * 0 + 0 * 10_000 == 0);
    assert(0 * 66 * speed_scale * 255 == 0) by (nonlinear_arith);
    assert(motor_numerator(0, max_speed, 0, speed_scale) == 0);
    assert(round_to_nearest(0, 100_000_000_000_000) == (2 * 0 + 100_000_000_000_000int) / (2
        * 100_000_000_000_000int));
}

/// Number of dashes in the proximity bar: one tenth of a full-scale reading
/// each, truncated toward zero, never negative.
pub open spec fn graph_dash_count(proximity: int) -> int {
    if proximity < 0 {
        0
    } else {
        proximity / 1_000
    }
}

/// The characters of the proximity bar: the dashes, then the arrowhead.
pub open spec fn proximity_graph_spec(proximity: int) -> Seq<char> {
    Seq::new(
        (graph_dash_count(proximity) + 1) as nat,
        |i: int| if i < graph_dash_count(proximity) { '-' } else { '>' },
    )
}

/// The diagnostic ASCII bar for a proximity reading: `floor(proximity * 10)`
/// dashes terminated by an arrowhead.
pub fn proximity_graph(proximity: i64) -> (graph: String)
    ensures
        graph@ == proximity_graph_spec(proximity as int),
{
    let dashes: u64 = if proximity <= 0 {
        0
    } else {
        (proximity as u64) / 1_000
    };
    let mut graph = String::new();
    let mut emitted: u64 = 0;
    while emitted < dashes
        invariant
            emitted <= dashes,
            graph@ == Seq::new(emitted as nat, |i: int| '-'),
        decreases dashes - emitted,
    {
        proof {
            reveal_strlit("-");
        }
        graph.append("-");
        emitted = emitted + 1;
        assert(graph@ =~= Seq::new(emitted as nat, |i: int| '-'));
    }
    proof {
        reveal_strlit(">");
    }
    graph.append(">");
    assert(graph@ =~= proximity_graph_spec(proximity as int));
    graph
}

} // verus!
