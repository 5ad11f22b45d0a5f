//! The inactivity watchdog's decision rule. The surrounding process wakes
//! once per poll interval, reads the shared last-signal timestamp, and asks
//! this module whether a fail-safe stop is due.

use vstd::prelude::*;

verus! {

/// Silence that triggers the fail-safe stop, in milliseconds.
pub const SILENCE_TIMEOUT_MS: u64 = 5_000;

/// The poll interval of the watchdog loop, in milliseconds.
pub const POLL_INTERVAL_MS: u64 = 1_000;

/// Whether a watchdog evaluation at `now_ms` fires, given the last-signal
/// timestamp: it does exactly when the silence has reached the timeout.
pub open spec fn watchdog_fires(now_ms: int, last_signal_ms: int) -> bool {
    now_ms - last_signal_ms >= SILENCE_TIMEOUT_MS
}

/// What one watchdog evaluation decided: whether to send a stop command, and
/// the last-signal timestamp to store back.
pub struct WatchdogDecision {
    /// Send one zero-intensity command to the device.
    pub send_stop: bool,
    /// The shared timestamp after the evaluation.
    pub last_signal_ms: u64,
}

/// Evaluate the watchdog at `now_ms`: emit a stop command if and only if the
/// last signal is at least the timeout old, and in that case reset the
/// timestamp to `now_ms` so the next stop waits for a further full silence.
pub fn watchdog_tick(now_ms: u64, last_signal_ms: u64) -> (decision: WatchdogDecision)
    requires
        last_signal_ms <= now_ms,
    ensures
        decision.send_stop == watchdog_fires(now_ms as int, last_signal_ms as int),
        decision.last_signal_ms == if decision.send_stop {
            now_ms
        } else {
            last_signal_ms
        },
        decision.last_signal_ms <= now_ms,
{
    if now_ms - last_signal_ms >= SILENCE_TIMEOUT_MS {
        WatchdogDecision { send_stop: true, last_signal_ms: now_ms }
    } else {
        WatchdogDecision { send_stop: false, last_signal_ms }
    }
}

/// After the watchdog fires and resets the shared timestamp to the firing
/// time, no evaluation fires again until a further full timeout of silence
/// has elapsed.
pub proof fn lemma_watchdog_no_refire(fire_ms: int, later_ms: int)
    requires
        fire_ms <= later_ms < fire_ms + SILENCE_TIMEOUT_MS,
    ensures
        !watchdog_fires(later_ms, fire_ms),
{
}

} // verus!
