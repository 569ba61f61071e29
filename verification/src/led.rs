//! Status-LED blink logic: each operating mode maps to a blink pattern,
//! and a small tick machine turns the pattern into a level for the LED.

use vstd::prelude::*;

use crate::store::SharedStateStore;

verus! {

/// What the status LED should show.
#[derive(Copy, Clone, Debug, PartialEq, Eq, Structural)]
pub enum LedStatus {
    Stop,
    Heating,
    Saturating,
    Error,
}

/// The blink pattern of a status: whether the LED blinks at all, and the
/// blink half-period in 10 ms ticks. A non-blinking status keeps the LED
/// dark and re-reads the status after the given number of ticks.
pub open spec fn blink_setting(status: LedStatus) -> (bool, u32) {
    match status {
        LedStatus::Stop => (false, 25),
        LedStatus::Heating => (true, 50),
        LedStatus::Saturating => (true, 100),
        LedStatus::Error => (true, 10),
    }
}

/// The mathematical state of a [`LedBlinker`].
pub struct LedBlinkerView {
    pub led: bool,
    pub ticks: int,
    pub blink_on: bool,
    pub blink_ticks: int,
}

impl LedBlinkerView {
    /// The invariant the tick machine maintains between steps: a lit LED
    /// implies a blinking pattern, every pattern period is positive once
    /// adopted, and the tick budget never outruns its period.
    pub open spec fn wf(self) -> bool {
        &&& self.led ==> self.blink_on
        &&& self.blink_on ==> 1 <= self.blink_ticks <= 100
        &&& 0 <= self.ticks <= 100
    }

    /// One 10 ms tick on the current status. When the budget is spent and
    /// the LED is dark, the pattern of `status` is adopted and the LED
    /// relit; a blinking pattern then toggles the LED each time the budget
    /// runs out, while a non-blinking pattern keeps it dark. The tick
    /// budget decreases by one at the end of every step.
    pub open spec fn step(self, status: LedStatus) -> LedBlinkerView {
        let s1 = if self.ticks <= 0 && !self.led {
            let (blink_on, blink_ticks) = blink_setting(status);
            LedBlinkerView {
                led: true,
                ticks: blink_ticks as int,
                blink_on,
                blink_ticks: blink_ticks as int,
            }
        } else {
            self
        };
        let s2 = if s1.blink_on {
            if s1.ticks <= 0 && s1.led {
                LedBlinkerView { led: false, ticks: s1.blink_ticks, ..s1 }
            } else {
                s1
            }
        } else {
            LedBlinkerView { led: false, ..s1 }
        };
        LedBlinkerView { ticks: s2.ticks - 1, ..s2 }
    }
}

/// Drives the status LED: adopts the blink pattern of the published
/// operating mode and toggles the LED level on that pattern's period.
pub struct LedBlinker {
    led: bool,
    ticks: u32,
    blink_on: bool,
    blink_ticks: u32,
}

impl View for LedBlinker {
    type V = LedBlinkerView;

    closed spec fn view(&self) -> LedBlinkerView {
        LedBlinkerView {
            led: self.led,
            ticks: self.ticks as int,
            blink_on: self.blink_on,
            blink_ticks: self.blink_ticks as int,
        }
    }
}

impl LedBlinker {
    /// A dark LED with an empty tick budget: the first step adopts the
    /// current status's pattern.
    pub fn new() -> (r: Self)
        ensures
            r@ == (LedBlinkerView { led: false, ticks: 0, blink_on: false, blink_ticks: 0 }),
            r@.wf(),
    {
        Self { led: false, ticks: 0, blink_on: false, blink_ticks: 0 }
    }

    /// Run one 10 ms tick on the given status and return the level to
    /// drive the LED with.
    pub fn step(&mut self, status: LedStatus) -> (level: bool)
        requires
            old(self)@.wf(),
        ensures
            final(self)@ == old(self)@.step(status),
            final(self)@.wf(),
            level == final(self)@.led,
    {
        if self.ticks == 0 && self.led == false {
            let (blink_on, blink_ticks): (bool, u32) = match status {
                LedStatus::Stop => (false, 25),
                LedStatus::Heating => (true, 50),
                LedStatus::Saturating => (true, 100),
                LedStatus::Error => (true, 10),
            };
            self.blink_on = blink_on;
            self.blink_ticks = blink_ticks;
            self.ticks = blink_ticks;
            self.led = true;
        }

        if self.blink_on {
            if self.ticks == 0 && self.led == true {
                self.led = false;
                self.ticks = self.blink_ticks;
            }
        } else {
            self.led = false;
        }

        let level = self.led;
        self.ticks -= 1;
        level
    }
}

/// Record the LED status the renderer should show; the rest of the store
/// is left untouched.
pub fn set_led(store: &mut SharedStateStore, status: LedStatus)
    ensures
        final(store)@ == (crate::store::SharedStateStoreView {
            led_status: status,
            ..old(store)@
        }),
{
    store.write_led_status(status);
}

} // verus!
