use haptic_router::motor::motor_command;
use haptic_router::router::{
    create_socket_address, route_unit, InboundUnit, RouteKind, RouterConfig, RouterState,
};
use haptic_router::watchdog::watchdog_tick;

fn test_config() -> RouterConfig {
    RouterConfig {
        proximity_address: "/avatar/parameters/proximity_01".to_string(),
        max_speed_address: "/avatar/parameters/max_speed".to_string(),
        min_speed: 1000,
        speed_scale: 10000,
    }
}

fn proximity_message(reading: Option<i64>) -> InboundUnit {
    InboundUnit::Message {
        address: "/avatar/parameters/proximity_01".to_string(),
        reading,
    }
}

fn max_speed_message(reading: i64) -> InboundUnit {
    InboundUnit::Message {
        address: "/avatar/parameters/max_speed".to_string(),
        reading: Some(reading),
    }
}

#[test]
fn zero_reading_sends_five_stops_and_refreshes_timestamp() {
    let config = test_config();
    let mut state = RouterState::new(8000, 0);
    let outcome = route_unit(&mut state, &config, proximity_message(Some(0)), 42);
    assert_eq!(outcome.kind, RouteKind::ProximityStop);
    assert_eq!(outcome.sends, vec![0, 0, 0, 0, 0]);
    assert_eq!(state.last_signal_ms, 42);
    assert_eq!(state.max_speed, 8000);
}

#[test]
fn zero_reading_stop_burst_ignores_speed_parameters() {
    let other_config = RouterConfig {
        min_speed: 9000,
        speed_scale: 300,
        ..test_config()
    };
    let mut state = RouterState::new(300, 7);
    let outcome = route_unit(&mut state, &other_config, proximity_message(Some(0)), 8);
    assert_eq!(outcome.kind, RouteKind::ProximityStop);
    assert_eq!(outcome.sends, vec![0, 0, 0, 0, 0]);
    assert_eq!(state.last_signal_ms, 8);
}

#[test]
fn nonzero_reading_sends_one_transformed_command() {
    let config = test_config();
    let mut state = RouterState::new(8000, 0);
    let outcome = route_unit(&mut state, &config, proximity_message(Some(5000)), 10);
    assert_eq!(outcome.kind, RouteKind::ProximityCommand);
    assert_eq!(outcome.sends, vec![76]);
    assert_eq!(state.last_signal_ms, 10);
}

#[test]
fn unknown_address_no_sends_no_state_change() {
    let config = test_config();
    let mut state = RouterState::new(8000, 5);
    let unit = InboundUnit::Message {
        address: "/avatar/parameters/other".to_string(),
        reading: Some(5000),
    };
    let outcome = route_unit(&mut state, &config, unit, 10);
    assert_eq!(outcome.kind, RouteKind::UnknownAddress);
    assert!(outcome.sends.is_empty());
    assert_eq!(state.max_speed, 8000);
    assert_eq!(state.last_signal_ms, 5);
}

#[test]
fn bundle_dropped_without_processing() {
    let config = test_config();
    let mut state = RouterState::new(8000, 5);
    let outcome = route_unit(&mut state, &config, InboundUnit::Bundle, 10);
    assert_eq!(outcome.kind, RouteKind::DroppedBundle);
    assert!(outcome.sends.is_empty());
    assert_eq!(state.max_speed, 8000);
    assert_eq!(state.last_signal_ms, 5);
}

#[test]
fn message_without_reading_dropped() {
    let config = test_config();
    let mut state = RouterState::new(8000, 5);
    let outcome = route_unit(&mut state, &config, proximity_message(None), 10);
    assert_eq!(outcome.kind, RouteKind::DroppedNoReading);
    assert!(outcome.sends.is_empty());
    assert_eq!(state.last_signal_ms, 5);
}

#[test]
fn max_speed_update_above_floor_is_stored() {
    let config = test_config();
    let mut state = RouterState::new(8000, 5);
    let outcome = route_unit(&mut state, &config, max_speed_message(9500), 10);
    assert_eq!(outcome.kind, RouteKind::MaxSpeedUpdate);
    assert!(outcome.sends.is_empty());
    assert_eq!(state.max_speed, 9500);
    // The update leaves the last-signal timestamp alone.
    assert_eq!(state.last_signal_ms, 5);
}

#[test]
fn max_speed_update_feeds_later_commands() {
    let config = test_config();
    let mut state = RouterState::new(8000, 0);
    route_unit(&mut state, &config, max_speed_message(9500), 10);
    let outcome = route_unit(&mut state, &config, proximity_message(Some(5000)), 20);
    // ((0.95 - 0.1) * 0.5 + 0.1) = 0.525; 0.525 * 0.66 * 255 = 88.3575, rounds to 88.
    assert_eq!(outcome.sends, vec![88]);
    assert_eq!(outcome.sends[0], motor_command(5000, 9500, 1000, 10000));
}

#[test]
fn max_speed_update_below_floor_clamps() {
    let config = test_config();
    let mut state = RouterState::new(8000, 5);
    route_unit(&mut state, &config, max_speed_message(200), 10);
    assert_eq!(state.max_speed, 500);
}

#[test]
fn max_speed_update_negative_clamps() {
    let config = test_config();
    let mut state = RouterState::new(8000, 5);
    route_unit(&mut state, &config, max_speed_message(-100), 10);
    assert_eq!(state.max_speed, 500);
}

#[test]
fn one_reading_then_silence_yields_one_stop() {
    let config = test_config();
    let mut state = RouterState::new(8000, 0);
    let outcome = route_unit(&mut state, &config, proximity_message(Some(2000)), 0);
    assert_eq!(outcome.sends, vec![40]);
    let mut stops: Vec<u64> = Vec::new();
    let mut last = state.last_signal_ms;
    for tick in 1..=6u64 {
        let now = tick * 1000;
        let decision = watchdog_tick(now, last);
        if decision.send_stop {
            stops.push(now);
        }
        last = decision.last_signal_ms;
    }
    // Exactly one stop command, at the five-second mark.
    assert_eq!(stops, vec![5000]);
}

#[test]
fn reading_at_bound_uses_transformer() {
    let config = test_config();
    let mut state = RouterState::new(10000, 0);
    let outcome = route_unit(
        &mut state,
        &config,
        proximity_message(Some(1_000_000_000)),
        5,
    );
    assert_eq!(outcome.kind, RouteKind::ProximityCommand);
    assert_eq!(
        outcome.sends,
        vec![motor_command(1_000_000_000, 10000, 1000, 10000)]
    );
}

#[test]
fn socket_address_joins_host_and_port() {
    assert_eq!(create_socket_address("127.0.0.1", "9001"), "127.0.0.1:9001");
}
