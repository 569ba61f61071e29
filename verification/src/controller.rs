//! The heater decision core: hysteresis control of the actuator, sticky
//! fault detection, and the operating-mode state machine that fuses them.
//!
//! Temperatures are plain integers in milli-degrees Celsius, the unit the
//! thermometer module publishes. Every duration threshold is expressed as
//! a number of 50 ms control cycles through a debounce [`Counter`].

use vstd::prelude::*;

use crate::led::{set_led, LedStatus};
use crate::store::{SharedStateStore, SharedStateStoreView};
use crate::util::{Counter, CounterView};

verus! {

/// Period of the control task, in milliseconds.
pub const HEATER_CONTROL_TASK_TICK_MS: u32 = 50;

/// How long the temperature must stay below the turn-on threshold before
/// the heater turns on, in milliseconds.
pub const HEATER_ON_DETECT_TIME_MS: u32 = 5000;

/// How long the temperature must stay at or above the turn-off threshold
/// before the heater turns off, in milliseconds.
pub const HEATER_OFF_DETECT_TIME_MS: u32 = 1000;

/// Below this smoothed temperature the heater wants to turn on, in
/// milli-degrees Celsius.
pub const HEATER_ON_THRESHOLD_MILLICELSIUS: i32 = 34000;

/// At or above this smoothed temperature the heater wants to turn off, in
/// milli-degrees Celsius. The band between the two thresholds is the
/// hysteresis dead-band that keeps the actuator from chattering.
pub const HEATER_OFF_THRESHOLD_MILLICELSIUS: i32 = 35000;

/// How long an overheat reading must persist before the overheat fault
/// latches, in milliseconds.
pub const ERROR_OVERHEAT_DETECT_TIME_MS: u32 = 2000;

/// How long a disconnect reading must persist before the thermistor
/// disconnect fault latches, in milliseconds.
pub const ERROR_CTH_DISCONNECT_DETECT_TIME_MS: u32 = 1000;

/// At or above this temperature the heater element counts as overheating,
/// in milli-degrees Celsius.
pub const ERROR_OVERHEAT_THRESHOLD_MILLICELSIUS: i32 = 45000;

/// Below this temperature the thermistor counts as disconnected, in
/// milli-degrees Celsius.
pub const ERROR_CTH_DISCONNECT_THRESHOLD_MILLICELSIUS: i32 = -10000;

/// The authoritative operating mode of the appliance.
#[derive(Copy, Clone, Debug, PartialEq, Eq, Structural)]
pub enum State {
    Initializing,
    Heating,
    Saturating,
    Error,
}

/// The latched fault, if any. Once a fault variant is stored it is never
/// cleared by the core: callers must treat it as terminal.
#[derive(Clone, Debug, PartialEq)]
pub enum ErrorCode {
    NoError,
    Heater1OverHeatError { errcode: u32, message: String },
    Heater1ThermistorDisconnectError { errcode: u32, message: String },
}

impl ErrorCode {
    /// The numeric code of the fault: zero when no fault is latched.
    pub open spec fn code(self) -> int {
        match self {
            ErrorCode::NoError => 0,
            ErrorCode::Heater1OverHeatError { .. } => 1,
            ErrorCode::Heater1ThermistorDisconnectError { .. } => 2,
        }
    }

    /// Whether a fault is latched.
    pub open spec fn is_fault(self) -> bool {
        self.code() != 0
    }
}

/// The exact value stored when the overheat fault latches.
pub open spec fn is_overheat_error(e: ErrorCode) -> bool {
    &&& e matches ErrorCode::Heater1OverHeatError { errcode, message }
    &&& errcode == 1
    &&& message@ == "Heater1 overheat error."@
}

/// The exact value stored when the thermistor-disconnect fault latches.
pub open spec fn is_disconnect_error(e: ErrorCode) -> bool {
    &&& e matches ErrorCode::Heater1ThermistorDisconnectError { errcode, message }
    &&& errcode == 2
    &&& message@ == "Heater1 thermistor disconnected error."@
}

/// An exact copy of a fault code, usable where verified callers need to
/// know the copy equals the source value.
pub fn clone_errcode(e: &ErrorCode) -> (r: ErrorCode)
    ensures
        r == *e,
{
    match e {
        ErrorCode::NoError => ErrorCode::NoError,
        ErrorCode::Heater1OverHeatError { errcode, message } => {
            ErrorCode::Heater1OverHeatError { errcode: *errcode, message: message.clone() }
        },
        ErrorCode::Heater1ThermistorDisconnectError { errcode, message } => {
            ErrorCode::Heater1ThermistorDisconnectError {
                errcode: *errcode,
                message: message.clone(),
            }
        },
    }
}

/// The mathematical state of a [`HeaterControl`].
pub struct HeaterControlView {
    pub heater_is_on: bool,
    pub heater_on_cnt: CounterView,
    pub heater_off_cnt: CounterView,
}

impl HeaterControlView {
    /// Both counters are well formed and carry the configured limits.
    pub open spec fn wf(self) -> bool {
        &&& self.heater_on_cnt.wf()
        &&& self.heater_off_cnt.wf()
        &&& self.heater_on_cnt.limit == (HEATER_ON_DETECT_TIME_MS / HEATER_CONTROL_TASK_TICK_MS) as nat
        &&& self.heater_off_cnt.limit == (HEATER_OFF_DETECT_TIME_MS / HEATER_CONTROL_TASK_TICK_MS) as nat
    }

    /// The state of a freshly built controller: heater off, both counters
    /// at zero.
    pub open spec fn initial() -> HeaterControlView {
        HeaterControlView {
            heater_is_on: false,
            heater_on_cnt: CounterView {
                count: 0,
                limit: (HEATER_ON_DETECT_TIME_MS / HEATER_CONTROL_TASK_TICK_MS) as nat,
            },
            heater_off_cnt: CounterView {
                count: 0,
                limit: (HEATER_OFF_DETECT_TIME_MS / HEATER_CONTROL_TASK_TICK_MS) as nat,
            },
        }
    }

    /// The turn-on check: while the heater is off, count cycles whose
    /// temperature is below the turn-on threshold; when the count reaches
    /// its limit, turn the heater on and reset the counter.
    pub open spec fn step_on_check(self, t: int) -> HeaterControlView {
        if !self.heater_is_on {
            let c = self.heater_on_cnt.step(t < HEATER_ON_THRESHOLD_MILLICELSIUS as int);
            if c.reached() {
                HeaterControlView {
                    heater_is_on: true,
                    heater_on_cnt: CounterView { count: 0, limit: c.limit },
                    heater_off_cnt: self.heater_off_cnt,
                }
            } else {
                HeaterControlView {
                    heater_is_on: self.heater_is_on,
                    heater_on_cnt: c,
                    heater_off_cnt: self.heater_off_cnt,
                }
            }
        } else {
            self
        }
    }

    /// The turn-off check: while the heater is on, count cycles whose
    /// temperature is at or above the turn-off threshold; when the count
    /// reaches its limit, turn the heater off and reset the counter.
    pub open spec fn step_off_check(self, t: int) -> HeaterControlView {
        if self.heater_is_on {
            let c = self.heater_off_cnt.step(t >= HEATER_OFF_THRESHOLD_MILLICELSIUS as int);
            if c.reached() {
                HeaterControlView {
                    heater_is_on: false,
                    heater_on_cnt: self.heater_on_cnt,
                    heater_off_cnt: CounterView { count: 0, limit: c.limit },
                }
            } else {
                HeaterControlView {
                    heater_is_on: self.heater_is_on,
                    heater_on_cnt: self.heater_on_cnt,
                    heater_off_cnt: c,
                }
            }
        } else {
            self
        }
    }

    /// One control cycle on the smoothed heater temperature `t`: the
    /// turn-on check, then the turn-off check on its outcome. Only the
    /// counter relevant to the actuator's current state advances.
    pub open spec fn step(self, t: int) -> HeaterControlView {
        self.step_on_check(t).step_off_check(t)
    }

    /// The state after one control cycle per element of `temps`, in order.
    pub open spec fn run(self, temps: Seq<int>) -> HeaterControlView
        decreases temps.len(),
    {
        if temps.len() == 0 {
            self
        } else {
            self.run(temps.drop_last()).step(temps.last())
        }
    }
}

/// Decides the heater actuator with hysteresis: the heater turns on only
/// after the smoothed temperature has stayed below the turn-on threshold
/// for a configured run of cycles, and turns off only after it has stayed
/// at or above the higher turn-off threshold for another run.
pub struct HeaterControl {
    heater_is_on: bool,
    heater_on_cnt: Counter,
    heater_off_cnt: Counter,
}

impl View for HeaterControl {
    type V = HeaterControlView;

    closed spec fn view(&self) -> HeaterControlView {
        HeaterControlView {
            heater_is_on: self.heater_is_on,
            heater_on_cnt: self.heater_on_cnt@,
            heater_off_cnt: self.heater_off_cnt@,
        }
    }
}

impl HeaterControl {
    /// A fresh controller: heater off, both debounce counters at zero.
    pub fn new() -> (r: Self)
        ensures
            r@ == HeaterControlView::initial(),
            r@.wf(),
    {
        Self {
            heater_is_on: false,
            heater_on_cnt: Counter::new(HEATER_ON_DETECT_TIME_MS / HEATER_CONTROL_TASK_TICK_MS),
            heater_off_cnt: Counter::new(HEATER_OFF_DETECT_TIME_MS / HEATER_CONTROL_TASK_TICK_MS),
        }
    }

    /// Run one control cycle on the smoothed heater temperature, in
    /// milli-degrees Celsius.
    pub fn control(&mut self, temperature: i32)
        requires
            old(self)@.wf(),
        ensures
            final(self)@ == old(self)@.step(temperature as int),
            final(self)@.wf(),
    {
        self.detect_heater_on(temperature);
        self.detect_heater_off(temperature);
    }

    /// Whether the heater actuator is currently commanded on.
    pub fn is_on(&self) -> (r: bool)
        ensures
            r == self@.heater_is_on,
    {
        self.heater_is_on
    }

    fn detect_heater_on(&mut self, temperature: i32)
        requires
            old(self)@.wf(),
        ensures
            final(self)@ == old(self)@.step_on_check(temperature as int),
            final(self)@.wf(),
    {
        if self.heater_is_on == false {
            if self.heater_on_cnt.count(temperature < HEATER_ON_THRESHOLD_MILLICELSIUS).is_reach_limit() {
                self.heater_on();
                self.heater_on_cnt.reset();
            }
        }
    }

    fn detect_heater_off(&mut self, temperature: i32)
        requires
            old(self)@.wf(),
        ensures
            final(self)@ == old(self)@.step_off_check(temperature as int),
            final(self)@.wf(),
    {
        if self.heater_is_on == true {
            if self.heater_off_cnt.count(temperature >= HEATER_OFF_THRESHOLD_MILLICELSIUS).is_reach_limit() {
                self.heater_off();
                self.heater_off_cnt.reset();
            }
        }
    }

    fn heater_on(&mut self)
        ensures
            final(self)@ == (HeaterControlView {
                heater_is_on: true,
                ..old(self)@
            }),
    {
        self.heater_is_on = true;
    }

    fn heater_off(&mut self)
        ensures
            final(self)@ == (HeaterControlView {
                heater_is_on: false,
                ..old(self)@
            }),
    {
        self.heater_is_on = false;
    }
}

/// The mathematical state of an [`ErrorDetector`].
pub struct ErrorDetectorView {
    pub heater_overheat: CounterView,
    pub heater_thermistor_disconnect: CounterView,
    pub detected_error: ErrorCode,
}

impl ErrorDetectorView {
    /// Both counters are well formed and carry the configured limits.
    pub open spec fn wf(self) -> bool {
        &&& self.heater_overheat.wf()
        &&& self.heater_thermistor_disconnect.wf()
        &&& self.heater_overheat.limit == (ERROR_OVERHEAT_DETECT_TIME_MS
            / HEATER_CONTROL_TASK_TICK_MS) as nat
        &&& self.heater_thermistor_disconnect.limit == (ERROR_CTH_DISCONNECT_DETECT_TIME_MS
            / HEATER_CONTROL_TASK_TICK_MS) as nat
    }

    /// The overheat condition observed on this cycle.
    pub open spec fn overheat_cond(t: int) -> bool {
        t >= ERROR_OVERHEAT_THRESHOLD_MILLICELSIUS as int
    }

    /// The disconnect condition observed on this cycle.
    pub open spec fn disconnect_cond(t: int) -> bool {
        t < ERROR_CTH_DISCONNECT_THRESHOLD_MILLICELSIUS as int
    }

    /// The numeric fault code after the overheat check: it becomes the
    /// overheat code when the counter reaches its limit and is otherwise
    /// unchanged.
    pub open spec fn code_after_overheat(self, t: int) -> int {
        if self.heater_overheat.step(Self::overheat_cond(t)).reached() {
            1
        } else {
            self.detected_error.code()
        }
    }

    /// The numeric fault code after both checks of one cycle: the overheat
    /// check runs first, the disconnect check second, so a disconnect
    /// latching on the same cycle overwrites an overheat.
    pub open spec fn code_after_cycle(self, t: int) -> int {
        if self.heater_thermistor_disconnect.step(Self::disconnect_cond(t)).reached() {
            2
        } else {
            self.code_after_overheat(t)
        }
    }
}

/// Watches the smoothed heater temperature for sustained overheat and
/// thermistor-disconnect conditions, and latches a sticky fault code when
/// either persists for its configured time. The core never clears a
/// latched fault.
pub struct ErrorDetector {
    heater_overheat: Counter,
    heater_thermistor_disconnect: Counter,
    detected_error: ErrorCode,
}

impl View for ErrorDetector {
    type V = ErrorDetectorView;

    closed spec fn view(&self) -> ErrorDetectorView {
        ErrorDetectorView {
            heater_overheat: self.heater_overheat@,
            heater_thermistor_disconnect: self.heater_thermistor_disconnect@,
            detected_error: self.detected_error,
        }
    }
}

impl ErrorDetector {
    /// A fresh detector: both counters at zero and no fault latched.
    pub fn new() -> (r: Self)
        ensures
            r@.heater_overheat == (CounterView {
                count: 0,
                limit: (ERROR_OVERHEAT_DETECT_TIME_MS / HEATER_CONTROL_TASK_TICK_MS) as nat,
            }),
            r@.heater_thermistor_disconnect == (CounterView {
                count: 0,
                limit: (ERROR_CTH_DISCONNECT_DETECT_TIME_MS / HEATER_CONTROL_TASK_TICK_MS) as nat,
            }),
            r@.detected_error == ErrorCode::NoError,
            r@.wf(),
    {
        Self {
            heater_overheat: Counter::new(
                ERROR_OVERHEAT_DETECT_TIME_MS / HEATER_CONTROL_TASK_TICK_MS,
            ),
            heater_thermistor_disconnect: Counter::new(
                ERROR_CTH_DISCONNECT_DETECT_TIME_MS / HEATER_CONTROL_TASK_TICK_MS,
            ),
            detected_error: ErrorCode::NoError,
        }
    }

    /// Observe the smoothed heater temperature for the overheat condition;
    /// when it has held for the configured run of cycles, latch the
    /// overheat fault.
    pub fn heater_overheat(&mut self, heater1_temp: i32)
        requires
            old(self)@.wf(),
        ensures
            final(self)@.heater_overheat == old(self)@.heater_overheat.step(
                ErrorDetectorView::overheat_cond(heater1_temp as int),
            ),
            final(self)@.heater_thermistor_disconnect == old(self)@.heater_thermistor_disconnect,
            final(self)@.detected_error.code() == old(self)@.code_after_overheat(
                heater1_temp as int,
            ),
            !old(self)@.heater_overheat.step(
                ErrorDetectorView::overheat_cond(heater1_temp as int),
            ).reached() ==> final(self)@.detected_error == old(self)@.detected_error,
            old(self)@.heater_overheat.step(
                ErrorDetectorView::overheat_cond(heater1_temp as int),
            ).reached() ==> is_overheat_error(final(self)@.detected_error),
            final(self)@.wf(),
    {
        if self
            .heater_overheat
            .count(heater1_temp >= ERROR_OVERHEAT_THRESHOLD_MILLICELSIUS)
            .is_reach_limit() {
            self.detected_error = ErrorCode::Heater1OverHeatError {
                errcode: 1,
                message: "Heater1 overheat error.".to_owned(),
            };
        }
    }

    /// Observe the smoothed heater temperature for the disconnect
    /// condition; when it has held for the configured run of cycles, latch
    /// the thermistor-disconnect fault.
    pub fn heater_thermistor_disconnect(&mut self, heater1_temp: i32)
        requires
            old(self)@.wf(),
        ensures
            final(self)@.heater_thermistor_disconnect == old(self)@.heater_thermistor_disconnect.step(
                ErrorDetectorView::disconnect_cond(heater1_temp as int),
            ),
            final(self)@.heater_overheat == old(self)@.heater_overheat,
            final(self)@.detected_error.code() == (if old(self)@.heater_thermistor_disconnect.step(
                ErrorDetectorView::disconnect_cond(heater1_temp as int),
            ).reached() {
                2int
            } else {
                old(self)@.detected_error.code()
            }),
            !old(self)@.heater_thermistor_disconnect.step(
                ErrorDetectorView::disconnect_cond(heater1_temp as int),
            ).reached() ==> final(self)@.detected_error == old(self)@.detected_error,
            old(self)@.heater_thermistor_disconnect.step(
                ErrorDetectorView::disconnect_cond(heater1_temp as int),
            ).reached() ==> is_disconnect_error(final(self)@.detected_error),
            final(self)@.wf(),
    {
        if self
            .heater_thermistor_disconnect
            .count(heater1_temp < ERROR_CTH_DISCONNECT_THRESHOLD_MILLICELSIUS)
            .is_reach_limit() {
            self.detected_error = ErrorCode::Heater1ThermistorDisconnectError {
                errcode: 2,
                message: "Heater1 thermistor disconnected error.".to_owned(),
            };
        }
    }

    /// The latched fault code, `NoError` while none has latched.
    pub fn errcode(&self) -> (r: ErrorCode)
        ensures
            r == self@.detected_error,
    {
        clone_errcode(&self.detected_error)
    }
}

/// The fault detector reduced to what its temporal behaviour depends on:
/// the two debounce counters and the numeric fault code.
pub struct DetectorModel {
    pub heater_overheat: CounterView,
    pub heater_thermistor_disconnect: CounterView,
    pub code: int,
}

impl DetectorModel {
    /// The model of a detector state.
    pub open spec fn of(d: ErrorDetectorView) -> DetectorModel {
        DetectorModel {
            heater_overheat: d.heater_overheat,
            heater_thermistor_disconnect: d.heater_thermistor_disconnect,
            code: d.detected_error.code(),
        }
    }

    /// Both counters are well formed and carry the configured limits.
    pub open spec fn wf(self) -> bool {
        &&& self.heater_overheat.wf()
        &&& self.heater_thermistor_disconnect.wf()
        &&& self.heater_overheat.limit == (ERROR_OVERHEAT_DETECT_TIME_MS
            / HEATER_CONTROL_TASK_TICK_MS) as nat
        &&& self.heater_thermistor_disconnect.limit == (ERROR_CTH_DISCONNECT_DETECT_TIME_MS
            / HEATER_CONTROL_TASK_TICK_MS) as nat
    }

    /// The model of a fresh detector: both counters at zero, no fault.
    pub open spec fn initial() -> DetectorModel {
        DetectorModel {
            heater_overheat: CounterView {
                count: 0,
                limit: (ERROR_OVERHEAT_DETECT_TIME_MS / HEATER_CONTROL_TASK_TICK_MS) as nat,
            },
            heater_thermistor_disconnect: CounterView {
                count: 0,
                limit: (ERROR_CTH_DISCONNECT_DETECT_TIME_MS / HEATER_CONTROL_TASK_TICK_MS) as nat,
            },
            code: 0,
        }
    }

    /// One cycle of fault checks on the smoothed heater temperature `t`:
    /// the overheat check first, then the disconnect check, so a
    /// disconnect latching on the same cycle overwrites an overheat. A
    /// latched code is only ever replaced by another fault code, never by
    /// zero.
    pub open spec fn step(self, t: int) -> DetectorModel {
        let ov = self.heater_overheat.step(ErrorDetectorView::overheat_cond(t));
        let dc = self.heater_thermistor_disconnect.step(ErrorDetectorView::disconnect_cond(t));
        DetectorModel {
            heater_overheat: ov,
            heater_thermistor_disconnect: dc,
            code: if dc.reached() {
                2
            } else if ov.reached() {
                1
            } else {
                self.code
            },
        }
    }

    /// The model after one cycle per element of `temps`, in order.
    pub open spec fn run(self, temps: Seq<int>) -> DetectorModel
        decreases temps.len(),
    {
        if temps.len() == 0 {
            self
        } else {
            self.run(temps.drop_last()).step(temps.last())
        }
    }
}

/// Everything one control cycle reads and writes, reduced to its
/// mathematical content: the hysteresis state, the detector model, and
/// the published operating mode.
pub struct CycleModel {
    pub hc: HeaterControlView,
    pub det: DetectorModel,
    pub state: State,
}

impl CycleModel {
    /// The model of a control task's state.
    pub open spec fn of(hc: HeaterControlView, det: ErrorDetectorView, state: State) -> CycleModel {
        CycleModel { hc, det: DetectorModel::of(det), state }
    }

    /// The components are well formed.
    pub open spec fn wf(self) -> bool {
        self.hc.wf() && self.det.wf()
    }

    /// One control cycle on the smoothed heater temperature `t`: both
    /// fault checks run first; a latched fault, or a mode already at
    /// `Error`, freezes the hysteresis state and forces the mode to
    /// `Error`; otherwise the hysteresis decision runs and the mode
    /// follows the actuator.
    pub open spec fn step(self, t: int) -> CycleModel {
        let det = self.det.step(t);
        if det.code != 0 || self.state == State::Error {
            CycleModel { hc: self.hc, det, state: State::Error }
        } else {
            let hc = self.hc.step(t);
            CycleModel {
                hc,
                det,
                state: if hc.heater_is_on {
                    State::Heating
                } else {
                    State::Saturating
                },
            }
        }
    }

    /// The actuator command of one control cycle: off whenever a fault is
    /// latched or the mode is already `Error`, else the hysteresis
    /// decision.
    pub open spec fn cmd(self, t: int) -> bool {
        let det = self.det.step(t);
        if det.code != 0 || self.state == State::Error {
            false
        } else {
            self.hc.step(t).heater_is_on
        }
    }

    /// The model after one control cycle per element of `temps`, in order.
    pub open spec fn run(self, temps: Seq<int>) -> CycleModel
        decreases temps.len(),
    {
        if temps.len() == 0 {
            self
        } else {
            self.run(temps.drop_last()).step(temps.last())
        }
    }
}

/// Run both fault checks of one control cycle, overheat first, disconnect
/// second, on the smoothed heater temperature; returns whether a fault is
/// latched afterwards. Both counters are fed every cycle, whatever the
/// current fault state.
pub fn detect_error(error_detector: &mut ErrorDetector, heater1_temp: i32) -> (fault: bool)
    requires
        old(error_detector)@.wf(),
    ensures
        final(error_detector)@.heater_overheat == old(error_detector)@.heater_overheat.step(
            ErrorDetectorView::overheat_cond(heater1_temp as int),
        ),
        final(error_detector)@.heater_thermistor_disconnect == old(error_detector)@.heater_thermistor_disconnect.step(
            ErrorDetectorView::disconnect_cond(heater1_temp as int),
        ),
        final(error_detector)@.detected_error.code() == old(error_detector)@.code_after_cycle(
            heater1_temp as int,
        ),
        !old(error_detector)@.heater_overheat.step(
            ErrorDetectorView::overheat_cond(heater1_temp as int),
        ).reached() && !old(error_detector)@.heater_thermistor_disconnect.step(
            ErrorDetectorView::disconnect_cond(heater1_temp as int),
        ).reached() ==> final(error_detector)@.detected_error == old(error_detector)@.detected_error,
        fault == final(error_detector)@.detected_error.is_fault(),
        DetectorModel::of(final(error_detector)@) == DetectorModel::of(old(error_detector)@).step(
            heater1_temp as int,
        ),
        final(error_detector)@.wf(),
{
    error_detector.heater_overheat(heater1_temp);
    error_detector.heater_thermistor_disconnect(heater1_temp);
    match &error_detector.detected_error {
        ErrorCode::NoError => false,
        _ => true,
    }
}

/// Run the hysteresis decision on the smoothed heater temperature and
/// translate it to the next operating mode and the actuator command.
pub fn heater_control(heater_controller: &mut HeaterControl, heater1_temp: i32) -> (r: (
    State,
    bool,
))
    requires
        old(heater_controller)@.wf(),
    ensures
        final(heater_controller)@ == old(heater_controller)@.step(heater1_temp as int),
        final(heater_controller)@.wf(),
        r.1 == final(heater_controller)@.heater_is_on,
        r.0 == if final(heater_controller)@.heater_is_on {
            State::Heating
        } else {
            State::Saturating
        },
{
    heater_controller.control(heater1_temp);
    if heater_controller.is_on() {
        (State::Heating, true)
    } else {
        (State::Saturating, false)
    }
}

/// The decision while a fault is latched: the operating mode stays at
/// `Error` and the actuator is commanded off.
pub fn control_on_error() -> (r: (State, bool))
    ensures
        r == (State::Error, false),
{
    (State::Error, false)
}

/// One dispatch of the control state machine. A latched fault, or a mode
/// already at `Error`, forces the actuator off and the mode to `Error`;
/// `Error` has no outgoing transition. Otherwise the hysteresis decision
/// runs and the mode follows the actuator: `Heating` when on,
/// `Saturating` when off.
pub fn control_sequence(
    state: State,
    fault: bool,
    heater_controller: &mut HeaterControl,
    heater1_temp: i32,
) -> (r: (State, bool))
    requires
        old(heater_controller)@.wf(),
    ensures
        final(heater_controller)@.wf(),
        fault || state == State::Error ==> r == (State::Error, false) && final(heater_controller)@ == old(heater_controller)@,
        !(fault || state == State::Error) ==> {
            &&& final(heater_controller)@ == old(heater_controller)@.step(heater1_temp as int)
            &&& r.1 == final(heater_controller)@.heater_is_on
            &&& r.0 == if final(heater_controller)@.heater_is_on {
                State::Heating
            } else {
                State::Saturating
            }
        },
{
    if fault {
        control_on_error()
    } else {
        match state {
            State::Error => control_on_error(),
            _ => heater_control(heater_controller, heater1_temp),
        }
    }
}

/// The LED status shown for each operating mode.
pub open spec fn led_for_state(state: State) -> LedStatus {
    match state {
        State::Initializing => LedStatus::Stop,
        State::Heating => LedStatus::Heating,
        State::Saturating => LedStatus::Saturating,
        State::Error => LedStatus::Error,
    }
}

/// Publish the LED status derived from the published operating mode; the
/// rest of the store is left untouched.
pub fn set_led_status(store: &mut SharedStateStore)
    ensures
        final(store)@ == (SharedStateStoreView {
            led_status: led_for_state(old(store)@.control_state),
            ..old(store)@
        }),
{
    match store.control_state() {
        State::Initializing => set_led(store, LedStatus::Stop),
        State::Heating => set_led(store, LedStatus::Heating),
        State::Saturating => set_led(store, LedStatus::Saturating),
        State::Error => set_led(store, LedStatus::Error),
    }
}

/// The published fault code, `NoError` while none has latched.
pub fn errcode(store: &SharedStateStore) -> (r: ErrorCode)
    ensures
        r == store@.detected_error,
{
    store.detected_error()
}

/// The published operating mode.
pub fn current_status(store: &SharedStateStore) -> (s: State)
    ensures
        s == store@.control_state,
{
    store.control_state()
}

/// The name of an operating mode, for display by readers.
pub fn current_status_string(state: State) -> (s: String)
    ensures
        state == State::Initializing ==> s@ == "Initializing"@,
        state == State::Heating ==> s@ == "Heating"@,
        state == State::Saturating ==> s@ == "Saturating"@,
        state == State::Error ==> s@ == "Error"@,
{
    match state {
        State::Initializing => "Initializing".to_owned(),
        State::Heating => "Heating".to_owned(),
        State::Saturating => "Saturating".to_owned(),
        State::Error => "Error".to_owned(),
    }
}

/// One 50 ms control cycle on the published heater temperature, in the
/// order the state machine prescribes: first both fault checks, then — 
/// only when no fault is latched and the mode is not already `Error` — 
/// the hysteresis decision; the resulting mode, fault code and LED status
/// are published to the store in the same cycle. Returns the actuator
/// command: always off from the cycle a fault latches onward.
pub fn controller_cycle(
    heater_controller: &mut HeaterControl,
    error_detector: &mut ErrorDetector,
    store: &mut SharedStateStore,
) -> (heater_on: bool)
    requires
        old(heater_controller)@.wf(),
        old(error_detector)@.wf(),
    ensures
        final(heater_controller)@.wf(),
        final(error_detector)@.wf(),
        final(error_detector)@.heater_overheat == old(error_detector)@.heater_overheat.step(
            ErrorDetectorView::overheat_cond(old(store)@.heater1_temp),
        ),
        final(error_detector)@.heater_thermistor_disconnect == old(error_detector)@.heater_thermistor_disconnect.step(
            ErrorDetectorView::disconnect_cond(old(store)@.heater1_temp),
        ),
        final(error_detector)@.detected_error.code() == old(error_detector)@.code_after_cycle(
            old(store)@.heater1_temp,
        ),
        final(store)@.detected_error == final(error_detector)@.detected_error,
        final(store)@.heater1_temp == old(store)@.heater1_temp,
        final(store)@.heater2_temp == old(store)@.heater2_temp,
        final(store)@.cpu_temp == old(store)@.cpu_temp,
        final(store)@.led_status == led_for_state(final(store)@.control_state),
        final(error_detector)@.detected_error.is_fault() || old(store)@.control_state
            == State::Error ==> {
            &&& final(store)@.control_state == State::Error
            &&& heater_on == false
            &&& final(heater_controller)@ == old(heater_controller)@
        },
        !(final(error_detector)@.detected_error.is_fault() || old(store)@.control_state
            == State::Error) ==> {
            &&& final(heater_controller)@ == old(heater_controller)@.step(
                old(store)@.heater1_temp,
            )
            &&& heater_on == final(heater_controller)@.heater_is_on
            &&& final(store)@.control_state == (if heater_on {
                State::Heating
            } else {
                State::Saturating
            })
        },
        CycleModel::of(final(heater_controller)@, final(error_detector)@, final(store)@.control_state)
            == CycleModel::of(old(heater_controller)@, old(error_detector)@, old(store)@.control_state).step(old(store)@.heater1_temp),
        heater_on == CycleModel::of(old(heater_controller)@, old(error_detector)@, old(store)@.control_state).cmd(old(store)@.heater1_temp),
{
    let heater1_temp = store.heater1_temp();
    let fault = detect_error(error_detector, heater1_temp);
    let state = store.control_state();
    let (next_state, heater_on) = control_sequence(state, fault, heater_controller, heater1_temp);
    store.publish_control(next_state, error_detector.errcode());
    set_led_status(store);
    heater_on
}

} // verus!
