use vstd::prelude::*;

use crate::device::{Action, Device, pulse_of};

verus! {

/// How long the fan line is held high on start-up before the louver is opened.
pub const SETTLE_MS: u32 = 1000;

/// What the fan loop remembers between two of its cycles.
#[derive(Clone, Copy, Debug, PartialEq, Eq, Structural)]
pub struct FanState {
    /// The fan was commanded to run (a non-zero pulse) at the last cycle.
    pub was_on: bool,
    /// The line was driven high at the last cycle.
    pub is_on: bool,
}

/// What the fan loop does in one cycle, in this order: hold the line high for
/// `SETTLE_MS` if `settle`, send `louver` to the louver device if any, then
/// drive the line to `line_high` and wait `hold_ms`.
#[derive(Clone, Copy, Debug, PartialEq, Eq, Structural)]
pub struct FanPlan {
    pub settle: bool,
    pub louver: Option<Action>,
    pub line_high: bool,
    pub hold_ms: u32,
}

/// One cycle of the fan loop from state `s`, for a pulse of `on_ms` in a
/// period of `period_ms`: the new state and the plan.
pub open spec fn cycle(s: FanState, on_ms: u32, period_ms: u32) -> (FanState, FanPlan) {
    let starts = !s.was_on && on_ms > 0;
    let stops = s.was_on && on_ms == 0;
    let high = (on_ms > 0 && !s.is_on) || on_ms == period_ms;
    (
        FanState { was_on: on_ms > 0, is_on: high },
        FanPlan {
            settle: starts,
            louver: if starts {
                Some(Action::On)
            } else if stops {
                Some(Action::Off)
            } else {
                None
            },
            line_high: high,
            hold_ms: if high {
                on_ms
            } else {
                (period_ms - on_ms) as u32
            },
        },
    )
}

impl FanState {
    /// The state at boot: the fan is stopped and its line is low.
    pub fn new() -> (r: FanState)
        ensures
            !r.was_on,
            !r.is_on,
    {
        FanState { was_on: false, is_on: false }
    }

    /// Decides one cycle from the pulse length `on_ms` of a period of
    /// `period_ms` read from the fan device. A stopped fan that gets a pulse
    /// settles and opens the louver; a running one that loses it closes the
    /// louver. The line then goes high for the pulse, or low for the rest of
    /// the period, taking turns, and stays high where nothing of the period
    /// is left.
    pub fn step(&mut self, on_ms: u32, period_ms: u32) -> (plan: FanPlan)
        requires
            on_ms <= period_ms,
        ensures
            (*final(self), plan) == cycle(*old(self), on_ms, period_ms),
    {
        let off_ms = period_ms - on_ms;
        let mut settle = false;
        let mut louver: Option<Action> = None;
        if !self.was_on && on_ms > 0 {
            settle = true;
            louver = Some(Action::On);
            self.was_on = true;
        } else if self.was_on && on_ms == 0 {
            louver = Some(Action::Off);
            self.was_on = false;
        }
        if (on_ms > 0 && !self.is_on) || off_ms == 0 {
            self.is_on = true;
            FanPlan { settle, louver, line_high: true, hold_ms: on_ms }
        } else {
            self.is_on = false;
            FanPlan { settle, louver, line_high: false, hold_ms: off_ms }
        }
    }
}

/// An accepted `Off` stops the fan: whatever the target was, it becomes 0
/// and the action `Off`. Where step 0 is 0%, the next cycle of a running fan
/// keeps the line low for the whole period and closes the louver once.
pub proof fn lemma_off_stops_fan(d: Device, t: Option<usize>, s: FanState)
    requires
        d.wf(),
        d.supports(Action::Off),
    ensures
        d.refusal(Action::Off, t) is None,
        d.applied(Action::Off, t).target == 0,
        d.applied(Action::Off, t).action == Action::Off,
        d.applied(Action::Off, t).wf(),
        d.dutycycles@[0] == 0 && s.was_on && d.period_ms > 0 ==> {
            let plan = cycle(s, d.applied(Action::Off, t).on_duration_ms, d.period_ms).1;
            &&& plan.louver == Some(Action::Off)
            &&& !plan.line_high
            &&& !plan.settle
            &&& plan.hold_ms == d.period_ms
        },
{
    let p = d.period_ms as int;
    let c = d.dutycycles@[0] as int;
    assert(0 <= p * c / 100 <= p) by (nonlinear_arith)
        requires
            0 <= p,
            0 <= c <= 100,
    ;
    if d.dutycycles@[0] == 0 {
        assert(d.period_ms as int * 0 == 0);
    }
}

/// An accepted `On` on a running fan keeps its target and pulse, so the fan
/// loop sees no edge: it makes no louver call and does not settle again.
pub proof fn lemma_on_keeps_running(d: Device, s: FanState)
    requires
        d.wf(),
        d.supports(Action::On),
        d.target != 0,
        s.was_on,
    ensures
        d.refusal(Action::On, None) is None,
        d.applied(Action::On, None).target == d.target,
        d.applied(Action::On, None).action == Action::On,
        d.applied(Action::On, None).on_duration_ms == d.on_duration_ms,
        d.on_duration_ms > 0 ==> {
            let plan = cycle(s, d.applied(Action::On, None).on_duration_ms, d.period_ms).1;
            &&& plan.louver is None
            &&& !plan.settle
        },
{
}

} // verus!
