//! The speed-limit tracker's diagnostics: the percentage display value of a
//! fixed-point speed and the tier label shown when the limit changes. The
//! clamp that guards the stored limit itself lives in `units`.

use vstd::prelude::*;
use crate::units::{SIGNAL_BOUND, round_to_nearest};

verus! {

/// Percentage display value of a fixed-point speed: the speed times one
/// hundred, rounded to the nearest integer, ties away from zero.
pub open spec fn speed_percent_spec(speed: int) -> int {
    round_to_nearest(speed, 100)
}

/// The percentage shown for a speed value.
pub fn speed_percent(speed: i64) -> (percent: i64)
    requires
        -SIGNAL_BOUND <= speed <= SIGNAL_BOUND,
    ensures
        percent == speed_percent_spec(speed as int),
{
    if speed >= 0 {
        let m: u64 = speed as u64;
        ((2 * m + 100) / 200) as i64
    } else {
        let m: u64 = (-speed) as u64;
        -(((2 * m + 100) / 200) as i64)
    }
}

/// The tier label for a speed-limit percentage.
pub open spec fn speed_tier_label_spec(percent: int) -> Seq<char> {
    if percent >= 91 {
        "!!! SO MUCH !!!"@
    } else if percent >= 76 {
        "!! "@
    } else if percent >= 51 {
        "!  "@
    } else {
        "   "@
    }
}

/// The human-readable tier label emitted when the speed limit changes:
/// loudest at ninety-one percent and above, blank at fifty and below.
pub fn speed_tier_label(percent: i64) -> (label: String)
    ensures
        label@ == speed_tier_label_spec(percent as int),
{
    if percent >= 91 {
        "!!! SO MUCH !!!".to_owned()
    } else if percent >= 76 {
        "!! ".to_owned()
    } else if percent >= 51 {
        "!  ".to_owned()
    } else {
        "   ".to_owned()
    }
}

} // verus!
