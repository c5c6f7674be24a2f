use vstd::prelude::*;

verus! {

/// Number of duty-cycle steps of every device.
pub const STEPS: usize = 6;

/// Largest valid `target` index.
pub const LAST_INDEX: usize = 5;

/// A command that a device may accept.
#[derive(Clone, Copy, Debug, PartialEq, Eq, Structural)]
pub enum Action {
    On,
    Off,
    Up,
    Down,
    SetTarget,
}

/// Why a command was refused by a device.
#[derive(Clone, Copy, Debug, PartialEq, Eq, Structural)]
pub enum Rejection {
    /// The action is not among the device's available actions.
    UnsupportedAction,
    /// A `SetTarget` came without a target, or with one past the last index.
    MissingOrInvalidTarget,
}

/// One controllable unit: its configuration and its commanded state.
pub struct Device {
    pub name: String,
    pub action: Action,
    pub available_actions: Vec<Action>,
    pub dutycycles: [u32; 6],
    pub target: usize,
    pub default_target: usize,
    pub period_ms: u32,
    pub on_duration_ms: u32,
}

/// Milliseconds of a period of `period_ms` during which the line is held
/// active, for a duty cycle of `percent`.
pub open spec fn on_duration_of(period_ms: u32, percent: u32) -> int {
    period_ms as int * percent as int / 100
}

/// A duty-cycle table holds percentages in non-decreasing order.
pub open spec fn table_ok(t: Seq<u32>) -> bool {
    &&& t.len() == STEPS
    &&& forall|i: int| 0 <= i < t.len() ==> t[i] <= 100
    &&& forall|i: int, j: int| 0 <= i <= j < t.len() ==> t[i] <= t[j]
}

/// Where `target` moves when `action` is applied (the action being accepted).
pub open spec fn next_target(target: usize, default_target: usize, action: Action, t: Option<usize>) -> usize {
    match action {
        Action::On => if target == 0 { default_target } else { target },
        Action::Off => 0,
        Action::Up => if target < LAST_INDEX { (target + 1) as usize } else { LAST_INDEX },
        Action::Down => if target > 0 { (target - 1) as usize } else { 0 },
        Action::SetTarget => t.unwrap(),
    }
}

/// The commanded mode after `action` is accepted: `Up` and `Down` keep it.
pub open spec fn next_action(current: Action, action: Action) -> Action {
    match action {
        Action::Up | Action::Down => current,
        _ => action,
    }
}

/// Line length of the pulse for duty-cycle step `target`.
pub open spec fn pulse_of(d: Device, target: usize) -> int {
    on_duration_of(d.period_ms, d.dutycycles@[target as int])
}

impl Device {
    /// The configuration is sound and the derived pulse length matches `target`.
    pub open spec fn wf(&self) -> bool {
        &&& table_ok(self.dutycycles@)
        &&& self.target <= LAST_INDEX
        &&& self.default_target <= LAST_INDEX
        &&& self.on_duration_ms as int == pulse_of(*self, self.target)
    }

    pub open spec fn supports(&self, action: Action) -> bool {
        self.available_actions@.contains(action)
    }

    /// The reason `action` with `t` is refused, if it is.
    pub open spec fn refusal(&self, action: Action, t: Option<usize>) -> Option<Rejection> {
        if !self.supports(action) {
            Some(Rejection::UnsupportedAction)
        } else if action == Action::SetTarget && (t is None || t.unwrap() > LAST_INDEX) {
            Some(Rejection::MissingOrInvalidTarget)
        } else {
            None
        }
    }

    /// The device once `action` with `t` has been accepted.
    pub open spec fn applied(self, action: Action, t: Option<usize>) -> Device {
        let nt = next_target(self.target, self.default_target, action, t);
        Device {
            action: next_action(self.action, action),
            target: nt,
            on_duration_ms: pulse_of(self, nt) as u32,
            ..self
        }
    }

    /// A device at rest (`Off`, target 0), or `None` where the table is not
    /// a non-decreasing list of percentages or `default_target` is past it.
    pub fn new(
        name: String,
        available_actions: Vec<Action>,
        dutycycles: [u32; 6],
        default_target: usize,
        period_ms: u32,
    ) -> (r: Option<Device>)
        ensures
            r is Some <==> table_ok(dutycycles@) && default_target <= LAST_INDEX,
            r matches Some(d) ==> {
                &&& d.wf()
                &&& d.name == name
                &&& d.available_actions == available_actions
                &&& d.dutycycles == dutycycles
                &&& d.default_target == default_target
                &&& d.period_ms == period_ms
                &&& d.action == Action::Off
                &&& d.target == 0
            },
    {
        if default_target > LAST_INDEX {
            return None;
        }
        let mut i: usize = 0;
        while i < STEPS
            invariant
                dutycycles@.len() == STEPS,
                0 <= i <= STEPS,
                forall|k: int| 0 <= k < i ==> dutycycles@[k] <= 100,
                forall|k: int| 0 < k < i ==> dutycycles@[k - 1] <= #[trigger] dutycycles@[k],
            decreases STEPS - i,
        {
            if dutycycles[i] > 100 {
                return None;
            }
            if i > 0 && dutycycles[i - 1] > dutycycles[i] {
                return None;
            }
            i = i + 1;
        }
        assert forall|a: int, b: int| 0 <= a <= b < STEPS implies dutycycles@[a] <= dutycycles@[b] by {
            lemma_sorted_steps(dutycycles@, a, b);
        }
        let on_ms = on_duration(period_ms, dutycycles[0]);
        Some(
            Device {
                name,
                action: Action::Off,
                available_actions,
                dutycycles,
                target: 0,
                default_target,
                period_ms,
                on_duration_ms: on_ms,
            },
        )
    }

    /// The ventilation fan: every action, six steps from stopped to 96%,
    /// a 100 ms period, starting at step 3.
    pub fn roof_vent() -> (r: Device)
        ensures
            r.wf(),
            r.name@ == "roof vent"@,
            r.available_actions@ == seq![Action::On, Action::Off, Action::Up, Action::Down, Action::SetTarget],
            r.dutycycles@ == seq![0u32, 20, 40, 60, 80, 96],
            r.default_target == 3,
            r.period_ms == 100,
            r.action == Action::Off,
            r.target == 0,
            r.on_duration_ms == 0,
    {
        Device::configured("roof vent".to_owned(), vec![Action::On, Action::Off, Action::Up, Action::Down, Action::SetTarget])
    }

    /// The louver: it only opens (`On`) and closes (`Off`); its table is the
    /// fan's and goes unused.
    pub fn vent_louver() -> (r: Device)
        ensures
            r.wf(),
            r.name@ == "vent louver"@,
            r.available_actions@ == seq![Action::On, Action::Off],
            r.dutycycles@ == seq![0u32, 20, 40, 60, 80, 96],
            r.default_target == 3,
            r.period_ms == 100,
            r.action == Action::Off,
            r.target == 0,
            r.on_duration_ms == 0,
    {
        Device::configured("vent louver".to_owned(), vec![Action::On, Action::Off])
    }

    fn configured(name: String, available_actions: Vec<Action>) -> (r: Device)
        ensures
            r.wf(),
            r.name == name,
            r.available_actions == available_actions,
            r.dutycycles@ == seq![0u32, 20, 40, 60, 80, 96],
            r.default_target == 3,
            r.period_ms == 100,
            r.action == Action::Off,
            r.target == 0,
            r.on_duration_ms == 0,
    {
        let dutycycles: [u32; 6] = [0, 20, 40, 60, 80, 96];
        assert(dutycycles@ =~= seq![0u32, 20, 40, 60, 80, 96]);
        Device {
            name,
            action: Action::Off,
            available_actions,
            dutycycles,
            target: 0,
            default_target: 3,
            period_ms: 100,
            on_duration_ms: 0,
        }
    }

    /// Applies `action` (with `t`, the target index of a `SetTarget`) and
    /// recomputes the pulse length; a refused command changes nothing.
    pub fn take_action(&mut self, action: Action, t: Option<usize>) -> (r: Result<(), Rejection>)
        requires
            old(self).wf(),
        ensures
            final(self).wf(),
            match old(self).refusal(action, t) {
                Some(e) => r == Err::<(), Rejection>(e) && *final(self) == *old(self),
                None => r is Ok && *final(self) == old(self).applied(action, t),
            },
            // The target stays a valid index, whatever the command.
            final(self).target <= LAST_INDEX,
            // An accepted `Off` always brings the target to zero.
            r is Ok && action == Action::Off ==> final(self).target == 0,
            // An accepted `On` starts a stopped device at its default step and
            // leaves a running one where it is.
            r is Ok && action == Action::On && old(self).target == 0 ==> final(self).target
                == old(self).default_target,
            r is Ok && action == Action::On && old(self).target != 0 ==> final(self).target
                == old(self).target,
            // An unsupported action, or a `SetTarget` past the table, is refused
            // and leaves the device as it was.
            !old(self).supports(action) ==> r == Err::<(), Rejection>(Rejection::UnsupportedAction)
                && *final(self) == *old(self),
            old(self).supports(action) && action == Action::SetTarget && t is Some && t.unwrap()
                > LAST_INDEX ==> r == Err::<(), Rejection>(Rejection::MissingOrInvalidTarget)
                && *final(self) == *old(self),
    {
        if !contains_action(&self.available_actions, action) {
            return Err(Rejection::UnsupportedAction);
        }
        let nt: usize = match action {
            Action::On => if self.target == 0 {
                self.default_target
            } else {
                self.target
            },
            Action::Off => 0,
            Action::Up => if self.target < LAST_INDEX {
                self.target + 1
            } else {
                LAST_INDEX
            },
            Action::Down => if self.target > 0 {
                self.target - 1
            } else {
                0
            },
            Action::SetTarget => match t {
                Some(n) => {
                    if n > LAST_INDEX {
                        return Err(Rejection::MissingOrInvalidTarget);
                    }
                    n
                },
                None => {
                    return Err(Rejection::MissingOrInvalidTarget);
                },
            },
        };
        match action {
            Action::Up | Action::Down => {},
            _ => {
                self.action = action;
            },
        }
        self.target = nt;
        self.on_duration_ms = on_duration(self.period_ms, self.dutycycles[nt]);
        Ok(())
    }
}

/// Whether `action` is one of `actions`.
pub fn contains_action(actions: &Vec<Action>, action: Action) -> (r: bool)
    ensures
        r == actions@.contains(action),
{
    let mut i: usize = 0;
    while i < actions.len()
        invariant
            0 <= i <= actions@.len(),
            forall|k: int| 0 <= k < i ==> actions@[k] != action,
        decreases actions@.len() - i,
    {
        if actions[i] == action {
            assert(actions@[i as int] == action);
            return true;
        }
        i = i + 1;
    }
    false
}

/// The pulse length of `percent` of `period_ms`, which never exceeds the period.
pub fn on_duration(period_ms: u32, percent: u32) -> (r: u32)
    requires
        percent <= 100,
    ensures
        r as int == on_duration_of(period_ms, percent),
        r <= period_ms,
{
    proof {
        assert(period_ms as int * percent as int <= period_ms as int * 100) by (nonlinear_arith)
            requires
                percent <= 100,
        ;
    }
    let wide: u64 = period_ms as u64 * percent as u64;
    (wide / 100) as u32
}

/// The pulse of a well-formed device is its period scaled by the duty cycle
/// of its current step, and never longer than the period.
pub proof fn lemma_pulse_within_period(d: Device)
    requires
        d.wf(),
    ensures
        d.on_duration_ms as int == d.period_ms as int * d.dutycycles@[d.target as int] as int / 100,
        0 <= d.on_duration_ms <= d.period_ms,
{
    let p = d.period_ms as int;
    let c = d.dutycycles@[d.target as int] as int;
    assert(p * c / 100 <= p) by (nonlinear_arith)
        requires
            0 <= p,
            0 <= c <= 100,
    ;
}

proof fn lemma_sorted_steps(t: Seq<u32>, a: int, b: int)
    requires
        0 <= a <= b < t.len(),
        forall|k: int| 0 < k < t.len() ==> t[k - 1] <= #[trigger] t[k],
    ensures
        t[a] <= t[b],
    decreases b - a,
{
    if a < b {
        lemma_sorted_steps(t, a, b - 1);
    }
}

} // verus!
