//! A relay core for proximity-driven haptic motor control.
//!
//! Inbound telemetry messages carry a normalized proximity reading; the
//! library classifies each message by address, maintains the mutable speed
//! limit, maps readings to bounded motor-intensity commands, and decides when
//! an inactivity watchdog must emit a fail-safe stop. All quantities are held
//! in fixed-point units so that every rule is stated and proved exactly; the
//! surrounding process owns the sockets, the clock and the configuration file
//! and hands the core plain values.

pub mod motor;
pub mod router;
pub mod speed;
pub mod units;
pub mod watchdog;
