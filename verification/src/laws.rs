//! The temporal laws of the control core, proved over the spec-level
//! models that the executable contracts are stated against.

use vstd::prelude::*;

use crate::controller::{
    CycleModel, DetectorModel, HeaterControlView, State, ERROR_CTH_DISCONNECT_THRESHOLD_MILLICELSIUS,
    ERROR_OVERHEAT_THRESHOLD_MILLICELSIUS, HEATER_OFF_THRESHOLD_MILLICELSIUS,
    HEATER_ON_THRESHOLD_MILLICELSIUS,
};

verus! {

/// A counter view with the given count and limit; shorthand for the laws
/// in this module.
pub open spec fn counter_at(count: nat, limit: nat) -> crate::util::CounterView {
    crate::util::CounterView { count, limit }
}

/// Law: starting from the initial hysteresis state with the heater off,
/// a temperature below the turn-on threshold on every cycle turns the
/// heater on exactly on the hundredth cycle — off with the turn-on count
/// at the number of cycles seen before that, on with both counters reset
/// from then on — so it turns on exactly once and not earlier.
pub proof fn lemma_heater_turns_on_exactly_on_limit(temps: Seq<int>)
    requires
        forall|i: int|
            0 <= i < temps.len() ==> temps[i] < HEATER_ON_THRESHOLD_MILLICELSIUS as int,
    ensures
        HeaterControlView::initial().run(temps).heater_is_on <==> temps.len() >= 100,
        temps.len() < 100 ==> HeaterControlView::initial().run(temps) == (HeaterControlView {
            heater_on_cnt: counter_at(temps.len() as nat, 100),
            ..HeaterControlView::initial()
        }),
        temps.len() >= 100 ==> HeaterControlView::initial().run(temps) == (HeaterControlView {
            heater_is_on: true,
            ..HeaterControlView::initial()
        }),
    decreases temps.len(),
{
    if temps.len() > 0 {
        lemma_heater_turns_on_exactly_on_limit(temps.drop_last());
    }
}

/// Law: with the heater on and its counters clear — the state the turn-on
/// law produces — a temperature at or above the turn-off threshold on
/// every cycle turns the heater off exactly on the twentieth cycle, and
/// it stays off with both counters clear from then on.
pub proof fn lemma_heater_turns_off_exactly_on_limit(temps: Seq<int>)
    requires
        forall|i: int|
            0 <= i < temps.len() ==> temps[i] >= HEATER_OFF_THRESHOLD_MILLICELSIUS as int,
    ensures
        (HeaterControlView { heater_is_on: true, ..HeaterControlView::initial() }).run(
            temps,
        ).heater_is_on <==> temps.len() < 20,
        temps.len() < 20 ==> (HeaterControlView {
            heater_is_on: true,
            ..HeaterControlView::initial()
        }).run(temps) == (HeaterControlView {
            heater_is_on: true,
            heater_off_cnt: counter_at(temps.len() as nat, 20),
            ..HeaterControlView::initial()
        }),
        temps.len() >= 20 ==> (HeaterControlView {
            heater_is_on: true,
            ..HeaterControlView::initial()
        }).run(temps) == HeaterControlView::initial(),
    decreases temps.len(),
{
    if temps.len() > 0 {
        lemma_heater_turns_off_exactly_on_limit(temps.drop_last());
    }
}

/// Law: a temperature in the dead-band — at or above the turn-on
/// threshold and below the turn-off threshold — never changes the
/// actuator state, whatever the hysteresis state; both debounce counters
/// reset instead.
pub proof fn lemma_deadband_step(hc: HeaterControlView, t: int)
    requires
        hc.wf(),
        HEATER_ON_THRESHOLD_MILLICELSIUS as int <= t < HEATER_OFF_THRESHOLD_MILLICELSIUS as int,
    ensures
        hc.step(t).heater_is_on == hc.heater_is_on,
        !hc.heater_is_on ==> hc.step(t).heater_on_cnt.count == 0,
        hc.heater_is_on ==> hc.step(t).heater_off_cnt.count == 0,
{
}

/// Law: a whole run of dead-band temperatures — for instance an
/// oscillation between the two thresholds — never changes the actuator
/// state.
pub proof fn lemma_deadband_run(hc: HeaterControlView, temps: Seq<int>)
    requires
        hc.wf(),
        forall|i: int|
            0 <= i < temps.len() ==> HEATER_ON_THRESHOLD_MILLICELSIUS as int <= #[trigger] temps[i]
                && temps[i] < HEATER_OFF_THRESHOLD_MILLICELSIUS as int,
    ensures
        hc.run(temps).heater_is_on == hc.heater_is_on,
        hc.run(temps).wf(),
    decreases temps.len(),
{
    if temps.len() > 0 {
        lemma_deadband_run(hc, temps.drop_last());
        lemma_deadband_step(hc.run(temps.drop_last()), temps.last());
    }
}

/// Law: from a fresh detector, a temperature at or above the overheat
/// threshold on every cycle latches the overheat fault exactly on the
/// fortieth cycle and not before; the overheat counter counts the cycles
/// up to its limit and the disconnect counter stays clear.
pub proof fn lemma_overheat_latches_exactly_on_limit(temps: Seq<int>)
    requires
        forall|i: int|
            0 <= i < temps.len() ==> temps[i] >= ERROR_OVERHEAT_THRESHOLD_MILLICELSIUS as int,
    ensures
        DetectorModel::initial().run(temps).code == if temps.len() >= 40 {
            1int
        } else {
            0int
        },
        DetectorModel::initial().run(temps).heater_overheat == counter_at(
            if temps.len() <= 40 {
                temps.len() as nat
            } else {
                40
            },
            40,
        ),
        DetectorModel::initial().run(temps).heater_thermistor_disconnect == counter_at(0, 20),
    decreases temps.len(),
{
    if temps.len() > 0 {
        lemma_overheat_latches_exactly_on_limit(temps.drop_last());
    }
}

/// Law: from any well-formed detector state, a temperature below the
/// disconnect threshold on every cycle latches the disconnect fault on
/// the twentieth consecutive cycle at the latest, whatever was latched
/// before.
pub proof fn lemma_disconnect_latches_on_limit(d: DetectorModel, temps: Seq<int>)
    requires
        d.wf(),
        d.heater_thermistor_disconnect.count == 0,
        forall|i: int|
            0 <= i < temps.len() ==> temps[i] < ERROR_CTH_DISCONNECT_THRESHOLD_MILLICELSIUS as int,
    ensures
        temps.len() >= 20 ==> d.run(temps).code == 2,
        d.run(temps).heater_thermistor_disconnect.count == if temps.len() <= 20 {
            temps.len() as nat
        } else {
            20
        },
        d.run(temps).wf(),
    decreases temps.len(),
{
    if temps.len() > 0 {
        lemma_disconnect_latches_on_limit(d, temps.drop_last());
    }
}

/// Law: a latched fault is sticky. One cycle never clears a fault code,
/// whatever the temperature; and over any run of cycles — for instance a
/// return to a normal temperature after an overheat — the code stays
/// latched.
pub proof fn lemma_fault_sticky(d: DetectorModel, temps: Seq<int>)
    requires
        d.code != 0,
    ensures
        d.run(temps).code != 0,
    decreases temps.len(),
{
    if temps.len() > 0 {
        lemma_fault_sticky(d, temps.drop_last());
    }
}

/// Law: a temperature that triggers neither fault condition — below the
/// overheat threshold and at or above the disconnect threshold — leaves
/// the latched code exactly as it is, so an overheat latched earlier is
/// still the overheat fault after any run of normal readings.
pub proof fn lemma_no_spurious_fault(d: DetectorModel, temps: Seq<int>)
    requires
        d.wf(),
        forall|i: int|
            0 <= i < temps.len() ==> ERROR_CTH_DISCONNECT_THRESHOLD_MILLICELSIUS as int
                <= #[trigger] temps[i] && temps[i] < ERROR_OVERHEAT_THRESHOLD_MILLICELSIUS as int,
    ensures
        d.run(temps).code == d.code,
        d.run(temps).wf(),
    decreases temps.len(),
{
    if temps.len() > 0 {
        lemma_no_spurious_fault(d, temps.drop_last());
    }
}

/// Law: the `Error` mode is absorbing. Once a fault is latched, every
/// subsequent control cycle keeps the code latched, publishes `Error`,
/// leaves the hysteresis state frozen, and commands the actuator off —
/// whatever the temperatures.
pub proof fn lemma_error_absorbing(m: CycleModel, temps: Seq<int>)
    requires
        m.det.code != 0,
    ensures
        m.run(temps).det.code != 0,
        m.run(temps).hc == m.hc,
        temps.len() > 0 ==> m.run(temps).state == State::Error,
        forall|k: int|
            0 <= k < temps.len() ==> !m.run(temps.take(k)).cmd(temps[k]),
    decreases temps.len(),
{
    if temps.len() > 0 {
        let prefix = temps.drop_last();
        lemma_error_absorbing(m, prefix);
        assert forall|k: int| 0 <= k < temps.len() implies !m.run(temps.take(k)).cmd(
            temps[k],
        ) by {
            if k < temps.len() - 1 {
                assert(temps.take(k) =~= prefix.take(k));
                assert(temps[k] == prefix[k]);
            } else {
                assert(temps.take(k) =~= prefix);
            }
        }
    }
}

} // verus!
