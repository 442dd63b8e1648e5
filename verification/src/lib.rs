//! Onboard control service for a remotely driven vehicle.
//!
//! The crate models the vehicle's control loop: a PWM actuator driver
//! (steering and throttle channels), a reactive value cell that notifies
//! listeners of command changes, the network-facing control session state
//! machine with its no-signal-means-stop failsafe, and the little-endian
//! wire codecs for the control and telemetry protocols.

pub mod error;
pub mod fixed;
pub mod input_device;
pub mod logging;
pub mod mesh;
pub mod messages;
pub mod pwm_driver;
pub mod session;
pub mod stream_manager;
pub mod variable;

use vstd::prelude::*;

verus! {

/// Well-known TCP port of the vehicle control service.
pub const DRIVE_CORE_PORT: u16 = 41330;

/// Well-known TCP port of the telemetry logging service.
pub const LOGGER_PORT: u16 = 41331;

} // verus!
