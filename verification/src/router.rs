//! The router: classify one inbound unit by address, update the owned state,
//! and produce the motor commands to send. The surrounding process feeds the
//! loop and performs the sends; every decision is made here.

use vstd::prelude::*;
use vstd::string::StringExecFns;
use crate::motor::{motor_command, motor_command_spec};
use crate::units::{UNIT, SIGNAL_BOUND, MAX_SPEED_FLOOR, clamp_max_speed, clamped_max_speed};

verus! {

/// Fixed configuration of the router, established once before the core runs.
pub struct RouterConfig {
    /// Address of inbound proximity updates.
    pub proximity_address: String,
    /// Address of inbound maximum-speed updates.
    pub max_speed_address: String,
    /// Fixed minimum speed, in fixed-point units.
    pub min_speed: i64,
    /// Fixed speed scale, in fixed-point units.
    pub speed_scale: i64,
}

impl RouterConfig {
    /// The fixed speed parameters are normalized fractions in `[0, 1]`.
    pub open spec fn wf(&self) -> bool {
        &&& 0 <= self.min_speed <= UNIT
        &&& 0 <= self.speed_scale <= UNIT
    }
}

/// The mutable state the router carries from message to message: the current
/// maximum speed and the shared last-signal timestamp the watchdog watches.
pub struct RouterState {
    /// Current maximum speed, in fixed-point units; never below the floor.
    pub max_speed: i64,
    /// When the last proximity message was seen, or the watchdog last fired,
    /// in milliseconds.
    pub last_signal_ms: u64,
}

impl RouterState {
    /// The clamp-on-write invariant, plus the machine bound every speed
    /// value respects.
    pub open spec fn wf(&self) -> bool {
        MAX_SPEED_FLOOR <= self.max_speed <= SIGNAL_BOUND
    }

    /// Initial state: the configured maximum speed clamped to the safety
    /// floor, and the clock's starting point.
    pub fn new(raw_max_speed: i64, start_ms: u64) -> (state: RouterState)
        requires
            raw_max_speed <= SIGNAL_BOUND,
        ensures
            state.wf(),
            state.max_speed == clamped_max_speed(raw_max_speed as int),
            state.last_signal_ms == start_ms,
    {
        RouterState { max_speed: clamp_max_speed(raw_max_speed), last_signal_ms: start_ms }
    }
}

/// One inbound unit from the transport, reduced to plain values.
pub enum InboundUnit {
    /// A bundle of nested units; dropped whole, never recursed into.
    Bundle,
    /// A single message.
    Message {
        /// The avatar-parameter address the message is tagged with.
        address: String,
        /// Its first argument as a fixed-point reading, or `None` when there
        /// is no first argument or it is not a floating-point number.
        reading: Option<i64>,
    },
}

/// How the router classified an inbound unit.
#[derive(Clone, Copy, PartialEq, Eq, Structural, Debug)]
pub enum RouteKind {
    /// A bundle, dropped with no further processing.
    DroppedBundle,
    /// A message without a numeric first argument, dropped silently.
    DroppedNoReading,
    /// A maximum-speed update, stored after the clamp.
    MaxSpeedUpdate,
    /// A proximity reading of exactly zero: an explicit stop request.
    ProximityStop,
    /// A nonzero proximity reading, mapped to one motor command.
    ProximityCommand,
    /// A message for neither configured address, dropped silently.
    UnknownAddress,
}

/// What routing one unit produced: the classification and the motor-command
/// values to send to the device, in order, one send each.
pub struct RouteOutcome {
    /// Which branch the unit took.
    pub kind: RouteKind,
    /// Motor-intensity values to send, in order.
    pub sends: Vec<i64>,
}

/// The five zero-intensity commands of an explicit stop request.
pub open spec fn stop_burst() -> Seq<i64> {
    seq![0i64, 0i64, 0i64, 0i64, 0i64]
}

/// Route one inbound unit.
///
/// A bundle, a message without a numeric first argument, and a message for
/// an unknown address are dropped: no state change, no sends. A maximum-speed
/// update stores the reading clamped to the safety floor and sends nothing.
/// A proximity message refreshes the last-signal timestamp whatever its
/// value; a reading of exactly zero yields the five-command stop burst
/// independent of the speed parameters, and any other reading yields exactly
/// one command computed by the signal transformer from the current
/// parameters.
pub fn route_unit(
    state: &mut RouterState,
    config: &RouterConfig,
    unit: InboundUnit,
    now_ms: u64,
) -> (outcome: RouteOutcome)
    requires
        old(state).wf(),
        config.wf(),
        old(state).last_signal_ms <= now_ms,
        unit matches InboundUnit::Message { reading: Some(r), .. }
            ==> -SIGNAL_BOUND <= r <= SIGNAL_BOUND,
    ensures
        final(state).wf(),
        final(state).last_signal_ms <= now_ms,
        match unit {
            InboundUnit::Bundle => {
                &&& *final(state) == *old(state)
                &&& outcome.kind == RouteKind::DroppedBundle
                &&& outcome.sends@ == Seq::<i64>::empty()
            },
            InboundUnit::Message { address, reading } => match reading {
                None => {
                    &&& *final(state) == *old(state)
                    &&& outcome.kind == RouteKind::DroppedNoReading
                    &&& outcome.sends@ == Seq::<i64>::empty()
                },
                Some(r) => if address@ == config.max_speed_address@ {
                    &&& final(state).max_speed == clamped_max_speed(r as int)
                    &&& final(state).last_signal_ms == old(state).last_signal_ms
                    &&& outcome.kind == RouteKind::MaxSpeedUpdate
                    &&& outcome.sends@ == Seq::<i64>::empty()
                } else if address@ == config.proximity_address@ {
                    &&& final(state).max_speed == old(state).max_speed
                    &&& final(state).last_signal_ms == now_ms
                    &&& if r == 0 {
                        &&& outcome.kind == RouteKind::ProximityStop
                        &&& outcome.sends@ == stop_burst()
                    } else {
                        &&& outcome.kind == RouteKind::ProximityCommand
                        &&& outcome.sends@.len() == 1
                        &&& outcome.sends@[0] == motor_command_spec(
                            r as int,
                            old(state).max_speed as int,
                            config.min_speed as int,
                            config.speed_scale as int,
                        )
                    }
                } else {
                    &&& *final(state) == *old(state)
                    &&& outcome.kind == RouteKind::UnknownAddress
                    &&& outcome.sends@ == Seq::<i64>::empty()
                },
            },
        },
{
    match unit {
        InboundUnit::Bundle => RouteOutcome { kind: RouteKind::DroppedBundle, sends: Vec::new() },
        InboundUnit::Message { address, reading } => match reading {
            None => RouteOutcome { kind: RouteKind::DroppedNoReading, sends: Vec::new() },
            Some(r) => {
                if address == config.max_speed_address {
                    state.max_speed = clamp_max_speed(r);
                    RouteOutcome { kind: RouteKind::MaxSpeedUpdate, sends: Vec::new() }
                } else if address == config.proximity_address {
                    state.last_signal_ms = now_ms;
                    if r == 0 {
                        let mut sends: Vec<i64> = Vec::new();
                        sends.push(0);
                        sends.push(0);
                        sends.push(0);
                        sends.push(0);
                        sends.push(0);
                        assert(sends@ =~= stop_burst());
                        RouteOutcome { kind: RouteKind::ProximityStop, sends }
                    } else {
                        let command = motor_command(
                            r,
                            state.max_speed,
                            config.min_speed,
                            config.speed_scale,
                        );
                        let mut sends: Vec<i64> = Vec::new();
                        sends.push(command);
                        RouteOutcome { kind: RouteKind::ProximityCommand, sends }
                    }
                } else {
                    RouteOutcome { kind: RouteKind::UnknownAddress, sends: Vec::new() }
                }
            },
        },
    }
}

/// The `host:port` form of a socket address.
pub fn create_socket_address(host: &str, port: &str) -> (address: String)
    ensures
        address@ == host@ + ":"@ + port@,
{
    let mut address = host.to_owned();
    address.append(":");
    address.append(port);
    address
}

} // verus!
