//! The single point of truth for cross-task state: the latest smoothed
//! temperatures, the operating mode, the latched fault code, and the LED
//! status. The control and sampling cycles write it; every other consumer
//! only reads. Callers that share it across tasks wrap it in a mutual
//! exclusion guard and keep each critical section to one read or write.

use vstd::prelude::*;

use crate::controller::{clone_errcode, ErrorCode, State};
use crate::led::LedStatus;

verus! {

/// The mathematical state of a [`SharedStateStore`]. Temperatures are in
/// milli-degrees Celsius.
pub struct SharedStateStoreView {
    pub heater1_temp: int,
    pub heater2_temp: int,
    pub cpu_temp: int,
    pub control_state: State,
    pub detected_error: ErrorCode,
    pub led_status: LedStatus,
}

/// Holds the published state of the appliance: smoothed channel
/// temperatures, the control state, the latched fault code, and the LED
/// status.
pub struct SharedStateStore {
    heater1_temp: i32,
    heater2_temp: i32,
    cpu_temp: i32,
    control_state: State,
    detected_error: ErrorCode,
    led_status: LedStatus,
}

impl View for SharedStateStore {
    type V = SharedStateStoreView;

    closed spec fn view(&self) -> SharedStateStoreView {
        SharedStateStoreView {
            heater1_temp: self.heater1_temp as int,
            heater2_temp: self.heater2_temp as int,
            cpu_temp: self.cpu_temp as int,
            control_state: self.control_state,
            detected_error: self.detected_error,
            led_status: self.led_status,
        }
    }
}

impl SharedStateStore {
    /// The state at process start: zero-degree readings, the initializing
    /// mode, no fault, and a stopped LED.
    pub fn new() -> (r: Self)
        ensures
            r@ == (SharedStateStoreView {
                heater1_temp: 0,
                heater2_temp: 0,
                cpu_temp: 0,
                control_state: State::Initializing,
                detected_error: ErrorCode::NoError,
                led_status: LedStatus::Stop,
            }),
    {
        Self {
            heater1_temp: 0,
            heater2_temp: 0,
            cpu_temp: 0,
            control_state: State::Initializing,
            detected_error: ErrorCode::NoError,
            led_status: LedStatus::Stop,
        }
    }

    /// The latest smoothed heater-element temperature, in milli-degrees.
    pub fn heater1_temp(&self) -> (t: i32)
        ensures
            t as int == self@.heater1_temp,
    {
        self.heater1_temp
    }

    /// The latest smoothed secondary-channel temperature, in milli-degrees.
    pub fn heater2_temp(&self) -> (t: i32)
        ensures
            t as int == self@.heater2_temp,
    {
        self.heater2_temp
    }

    /// The latest processor temperature, in milli-degrees.
    pub fn cpu_temp(&self) -> (t: i32)
        ensures
            t as int == self@.cpu_temp,
    {
        self.cpu_temp
    }

    /// The published operating mode.
    pub fn control_state(&self) -> (s: State)
        ensures
            s == self@.control_state,
    {
        self.control_state
    }

    /// The published fault code, `NoError` while none has latched.
    pub fn detected_error(&self) -> (r: ErrorCode)
        ensures
            r == self@.detected_error,
    {
        clone_errcode(&self.detected_error)
    }

    /// The published LED status.
    pub fn led_status(&self) -> (s: LedStatus)
        ensures
            s == self@.led_status,
    {
        self.led_status
    }

    /// Publish the three smoothed temperatures of one sampling cycle, in
    /// milli-degrees Celsius; the rest of the store is left untouched.
    pub fn write_temperatures(&mut self, heater1: i32, heater2: i32, cpu: i32)
        ensures
            final(self)@ == (SharedStateStoreView {
                heater1_temp: heater1 as int,
                heater2_temp: heater2 as int,
                cpu_temp: cpu as int,
                ..old(self)@
            }),
    {
        self.heater1_temp = heater1;
        self.heater2_temp = heater2;
        self.cpu_temp = cpu;
    }

    /// Publish the outcome of one control cycle: the operating mode and
    /// the latched fault code, in one update, so readers always see a
    /// state and fault from the same cycle.
    pub fn publish_control(&mut self, state: State, fault: ErrorCode)
        ensures
            final(self)@ == (SharedStateStoreView {
                control_state: state,
                detected_error: fault,
                ..old(self)@
            }),
    {
        self.control_state = state;
        self.detected_error = fault;
    }

    /// Publish the LED status derived from the control cycle.
    pub fn write_led_status(&mut self, status: LedStatus)
        ensures
            final(self)@ == (SharedStateStoreView { led_status: status, ..old(self)@ }),
    {
        self.led_status = status;
    }
}

} // verus!
