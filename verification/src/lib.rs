//! Thermal-regulation core of a small networked heater appliance.
//!
//! The library turns raw analog sensor codes into smoothed temperatures,
//! drives an on/off heater decision with hysteresis, detects sustained
//! thermal faults, and fuses everything in a small control state machine.
//! Every decision is a pure function of explicit state, so the whole core
//! is verified; the hardware and network edges live outside the library.

pub mod util;
pub mod thermometer;
pub mod controller;
pub mod led;
pub mod store;
pub mod laws;

pub use controller::{
    controller_cycle, current_status, current_status_string, errcode, ErrorCode, ErrorDetector,
    HeaterControl, State,
};
pub use led::{LedBlinker, LedStatus};
pub use store::SharedStateStore;
pub use thermometer::{
    cpu_tempareture, heater1_tempareture, heater2_tempareture, thermometer_cycle, Thermometer,
    TemperatureCurve,
};
pub use util::Counter;
