//! The adaptive search for the largest deliverable payload size. The
//! search is a state machine: each state arms one round — send a probe
//! of a given size, or just listen, and wait up to a deadline — and
//! each observed outcome (a reply carrying an echoed length, or a
//! timeout) advances the state. The embedding performs the rounds over
//! the real socket; every decision the search ever takes is here.
//!
//! Phases, in order: a ceiling probe at the largest size worth trying;
//! floor confirmation, retrying at the guaranteed floor until the host
//! proves alive, with one long last listen before giving up; a descent
//! from the ceiling in fixed steps until a size gets through; a
//! refinement that halves the step to pin the boundary exactly; and a
//! stability phase that keeps probing just above the best size and at
//! the midpoint up to the ceiling while retries and budget remain.
//!
//! Replies are charged nothing against the time budget; a timed-out
//! round is charged its full wait, and the budget caps every wait, so
//! the machine never waits longer than the configured total unless a
//! late success extends it.

use vstd::prelude::*;

verus! {

/// Retry budget of the floor-confirmation and stability phases.
pub const RETRY: u16 = 6;

/// Size decrement of the descent phase.
pub const PROBE_STEP: u16 = 16;

/// Standard per-round timeout.
pub const ATTEMPT_MS: u64 = 300;

/// Short timeout of the floor-confirmation pings.
pub const QUICK_MS: u64 = 100;

/// A budget that lets the search pin any boundary before time runs
/// out: one ceiling round, at most 57 descent rounds and 4 refinement
/// rounds can time out on the way, so 63 standard timeouts leave slack.
pub const CONVERGE_MS: u64 = 63 * ATTEMPT_MS;

/// Where the search stands while a round is in flight.
#[derive(Clone, Copy, Debug, PartialEq, Eq)]
pub enum Phase {
    /// The ceiling probe is out.
    Ceiling,
    /// A floor-confirmation ping is out; `tries` attempts remain.
    Floor { tries: u16 },
    /// The last long listen for a floor reply before giving up.
    FinalWait,
    /// A descent probe at `cursor` is out.
    Descent { cursor: u16 },
    /// A refinement probe at the best size plus `step` is out.
    Refine { step: u16 },
    /// A stability probe is out: just above the best size when
    /// `above`, at the midpoint to the ceiling otherwise.
    Stability { tries: u16, above: bool },
    /// The search has published its result.
    Done,
}

/// The search state: current phase, the best confirmed size, the
/// ceiling, whether any reply was ever received, and the remaining and
/// configured time budget.
#[derive(Clone, Copy, Debug, PartialEq, Eq)]
pub struct Probe {
    pub phase: Phase,
    pub min: u16,
    pub ceiling: u16,
    pub confirmed: bool,
    pub budget_ms: u64,
    pub total_ms: u64,
}

/// How a round ended: a reply carrying the echoed payload length, or
/// the deadline.
#[derive(Clone, Copy, Debug, PartialEq, Eq)]
pub enum Event {
    Reply { len: u16 },
    Timeout,
}

/// What the embedding must do next: send a probe of `size` and await a
/// reply up to `wait_ms`; just listen up to `wait_ms`; or stop and
/// publish `mtu` — the best confirmed size, or zero when the host
/// never answered at all.
#[derive(Clone, Copy, Debug, PartialEq, Eq)]
pub enum Action {
    Send { size: u16, wait_ms: u64 },
    Listen { wait_ms: u64 },
    Finish { mtu: u16 },
}

/// The result published when the machine stops: the best confirmed
/// size, or zero when no reply was ever received.
pub open spec fn outcome(p: Probe) -> u16 {
    if p.confirmed {
        p.min
    } else {
        0
    }
}

/// Nominal wait of the pending round, capped by the remaining budget:
/// quick floor pings, one long last listen, the standard attempt
/// timeout everywhere else.
pub open spec fn wait_of(p: Probe) -> u64 {
    match p.phase {
        Phase::Floor { .. } => if QUICK_MS <= p.budget_ms {
            QUICK_MS
        } else {
            p.budget_ms
        },
        Phase::FinalWait => p.budget_ms,
        _ => if ATTEMPT_MS <= p.budget_ms {
            ATTEMPT_MS
        } else {
            p.budget_ms
        },
    }
}

/// Stability-phase probe sites: just above the best size, or the
/// midpoint between it and the ceiling (never below just-above).
pub open spec fn stab_size(p: Probe, above: bool) -> u16 {
    if above {
        (p.min + 1) as u16
    } else {
        let mid = ((p.min + p.ceiling) / 2) as u16;
        if mid > p.min {
            mid
        } else {
            (p.min + 1) as u16
        }
    }
}

/// Size in flight for each awaiting phase.
pub open spec fn sent_size(p: Probe) -> u16 {
    match p.phase {
        Phase::Ceiling => p.ceiling,
        Phase::Floor { .. } => p.min,
        Phase::FinalWait => p.min,
        Phase::Descent { cursor } => cursor,
        Phase::Refine { step } => (p.min + step) as u16,
        Phase::Stability { above, .. } => stab_size(p, above),
        Phase::Done => 0,
    }
}

/// A reply confirms the host and can only raise the best size, capped
/// at the ceiling.
pub open spec fn raise(p: Probe, len: u16) -> Probe {
    let capped: u16 = if len > p.ceiling {
        p.ceiling
    } else {
        len
    };
    Probe {
        min: if capped > p.min {
            capped
        } else {
            p.min
        },
        confirmed: true,
        ..p
    }
}

/// Charges the timed-out round's wait against the budget.
pub open spec fn charge(p: Probe) -> Probe {
    Probe { budget_ms: (p.budget_ms - wait_of(p)) as u64, ..p }
}

/// Stops the machine and publishes the outcome.
pub open spec fn finish(p: Probe) -> (Probe, Action) {
    (Probe { phase: Phase::Done, ..p }, Action::Finish { mtu: outcome(p) })
}

/// Arms the round the phase calls for.
pub open spec fn arm(p: Probe) -> (Probe, Action) {
    if p.phase is FinalWait {
        (p, Action::Listen { wait_ms: wait_of(p) })
    } else {
        (p, Action::Send { size: sent_size(p), wait_ms: wait_of(p) })
    }
}

/// Largest refinement step, at most `cap`, that stays at or below the
/// ceiling; zero when the refinement is exhausted.
pub open spec fn next_step(min: u16, ceiling: u16, cap: u16) -> u16 {
    if cap >= 8 && min + 8 <= ceiling {
        8
    } else if cap >= 4 && min + 4 <= ceiling {
        4
    } else if cap >= 2 && min + 2 <= ceiling {
        2
    } else if cap >= 1 && min + 1 <= ceiling {
        1
    } else {
        0
    }
}

/// Enters the stability phase, or stops when the ceiling itself is
/// confirmed.
pub open spec fn enter_stability(p: Probe) -> (Probe, Action) {
    if p.min == p.ceiling {
        finish(p)
    } else {
        arm(Probe { phase: Phase::Stability { tries: RETRY, above: true }, ..p })
    }
}

/// Continues the refinement at the largest useful step no bigger than
/// `cap`, or moves on when none is left.
pub open spec fn refine_go(p: Probe, cap: u16) -> (Probe, Action) {
    let s = next_step(p.min, p.ceiling, cap);
    if s == 0 {
        enter_stability(p)
    } else {
        arm(Probe { phase: Phase::Refine { step: s }, ..p })
    }
}

/// Descends by one step below the last failed size, or falls through
/// to refinement when the next site would sink below the best size.
pub open spec fn descend_from(p: Probe, from: u16) -> (Probe, Action) {
    if from >= p.min + PROBE_STEP {
        arm(Probe { phase: Phase::Descent { cursor: (from - PROBE_STEP) as u16 }, ..p })
    } else {
        refine_go(p, PROBE_STEP / 2)
    }
}

/// The machine a fresh search starts in: the ceiling probe goes out
/// first, with the whole configured budget ahead of it.
pub open spec fn spec_start(total_ms: u64) -> (Probe, Action) {
    arm(
        Probe {
            phase: Phase::Ceiling,
            min: crate::MTU_MIN_IPV4,
            ceiling: crate::MTU_IPV4,
            confirmed: false,
            budget_ms: total_ms,
            total_ms: total_ms,
        },
    )
}

/// One transition of the search: the machine in `p` awaited the round
/// its phase describes, and `ev` is how that round ended.
pub open spec fn spec_step(p: Probe, ev: Event) -> (Probe, Action) {
    match p.phase {
        Phase::Done => (p, Action::Finish { mtu: outcome(p) }),
        Phase::Ceiling => match ev {
            Event::Reply { len } => {
                let p1 = raise(p, len);
                if len >= p.ceiling {
                    finish(p1)
                } else {
                    arm(Probe { phase: Phase::Floor { tries: RETRY }, ..p1 })
                }
            },
            Event::Timeout => {
                let p1 = charge(p);
                if p1.budget_ms == 0 {
                    finish(p1)
                } else {
                    arm(Probe { phase: Phase::Floor { tries: RETRY }, ..p1 })
                }
            },
        },
        Phase::Floor { tries } => match ev {
            Event::Reply { len } => {
                let p1 = raise(p, len);
                if p1.min == p1.ceiling {
                    finish(p1)
                } else {
                    descend_from(p1, p1.ceiling)
                }
            },
            Event::Timeout => {
                let p1 = charge(p);
                if p1.budget_ms == 0 {
                    finish(p1)
                } else if tries <= 1 {
                    arm(Probe { phase: Phase::FinalWait, ..p1 })
                } else {
                    arm(Probe { phase: Phase::Floor { tries: (tries - 1) as u16 }, ..p1 })
                }
            },
        },
        Phase::FinalWait => match ev {
            Event::Reply { len } => {
                let p1 = raise(p, len);
                if p1.min == p1.ceiling {
                    finish(p1)
                } else {
                    descend_from(p1, p1.ceiling)
                }
            },
            Event::Timeout => finish(charge(p)),
        },
        Phase::Descent { cursor } => match ev {
            Event::Reply { len } => {
                let p1 = raise(p, len);
                if len >= cursor {
                    refine_go(p1, PROBE_STEP / 2)
                } else {
                    descend_from(p1, cursor)
                }
            },
            Event::Timeout => {
                let p1 = charge(p);
                if p1.budget_ms == 0 {
                    finish(p1)
                } else {
                    descend_from(p1, cursor)
                }
            },
        },
        Phase::Refine { step } => match ev {
            Event::Reply { len } => refine_go(raise(p, len), (step / 2) as u16),
            Event::Timeout => {
                let p1 = charge(p);
                if p1.budget_ms == 0 {
                    finish(p1)
                } else {
                    refine_go(p1, (step / 2) as u16)
                }
            },
        },
        Phase::Stability { tries, above } => match ev {
            Event::Reply { len } => {
                let probed = stab_size(p, above);
                let p1 = raise(p, len);
                if len >= probed {
                    enter_stability(Probe { budget_ms: p1.total_ms, ..p1 })
                } else if tries <= 1 {
                    finish(p1)
                } else {
                    arm(
                        Probe {
                            phase: Phase::Stability { tries: (tries - 1) as u16, above: !above },
                            ..p1
                        },
                    )
                }
            },
            Event::Timeout => {
                let p1 = charge(p);
                if p1.budget_ms == 0 || tries <= 1 {
                    finish(p1)
                } else {
                    arm(
                        Probe {
                            phase: Phase::Stability { tries: (tries - 1) as u16, above: !above },
                            ..p1
                        },
                    )
                }
            },
        },
    }
}

/// Agreement between a state and the action armed beside it.
pub open spec fn action_ok(p: Probe, a: Action) -> bool {
    match a {
        Action::Send { size, wait_ms } => {
            &&& !(p.phase is Done)
            &&& !(p.phase is FinalWait)
            &&& size == sent_size(p)
            &&& wait_ms == wait_of(p)
            &&& crate::MTU_MIN_IPV4 <= size <= crate::MTU_IPV4
            &&& size >= p.min
        },
        Action::Listen { wait_ms } => p.phase is FinalWait && wait_ms == wait_of(p),
        Action::Finish { mtu } => p.phase is Done && mtu == outcome(p),
    }
}

impl Probe {
    /// Well-formedness of a search state.
    pub open spec fn inv(self) -> bool {
        &&& crate::MTU_MIN_IPV4 <= self.min <= self.ceiling <= crate::MTU_IPV4
        &&& self.budget_ms <= self.total_ms
        &&& match self.phase {
            Phase::Floor { tries } => 1 <= tries <= RETRY,
            Phase::Descent { cursor } => self.min <= cursor <= self.ceiling && self.confirmed,
            Phase::Refine { step } => (step == 1 || step == 2 || step == 4 || step == 8)
                && self.min + step <= self.ceiling && self.confirmed,
            Phase::Stability { tries, .. } => 1 <= tries <= RETRY && self.min < self.ceiling
                && self.confirmed,
            _ => true,
        }
    }

    /// Starts a search under a total time budget.
    pub fn start(total_ms: u64) -> (r: (Probe, Action))
        ensures
            r == spec_start(total_ms),
            r.0.inv(),
            action_ok(r.0, r.1),
    {
        let p = Probe {
            phase: Phase::Ceiling,
            min: crate::MTU_MIN_IPV4,
            ceiling: crate::MTU_IPV4,
            confirmed: false,
            budget_ms: total_ms,
            total_ms,
        };
        ex_arm(p)
    }

    /// Advances the search by one observed round. States come only
    /// from `start` and `step`, which keep the well-formedness the
    /// precondition asks for. The best confirmed size never regresses,
    /// and the ceiling and the configured total never change.
    pub fn step(self, ev: Event) -> (r: (Probe, Action))
        requires
            self.inv(),
        ensures
            r == spec_step(self, ev),
            r.0.inv(),
            action_ok(r.0, r.1),
            r.0.min >= self.min,
            r.0.ceiling == self.ceiling,
            r.0.total_ms == self.total_ms,
    {
        match self.phase {
            Phase::Done => (self, Action::Finish { mtu: ex_outcome(self) }),
            Phase::Ceiling => match ev {
                Event::Reply { len } => {
                    let p1 = ex_raise(self, len);
                    if len >= self.ceiling {
                        ex_finish(p1)
                    } else {
                        ex_arm(Probe { phase: Phase::Floor { tries: RETRY }, ..p1 })
                    }
                },
                Event::Timeout => {
                    let p1 = ex_charge(self);
                    if p1.budget_ms == 0 {
                        ex_finish(p1)
                    } else {
                        ex_arm(Probe { phase: Phase::Floor { tries: RETRY }, ..p1 })
                    }
                },
            },
            Phase::Floor { tries } => match ev {
                Event::Reply { len } => {
                    let p1 = ex_raise(self, len);
                    if p1.min == p1.ceiling {
                        ex_finish(p1)
                    } else {
                        ex_descend_from(p1, p1.ceiling)
                    }
                },
                Event::Timeout => {
                    let p1 = ex_charge(self);
                    if p1.budget_ms == 0 {
                        ex_finish(p1)
                    } else if tries <= 1 {
                        ex_arm(Probe { phase: Phase::FinalWait, ..p1 })
                    } else {
                        ex_arm(Probe { phase: Phase::Floor { tries: tries - 1 }, ..p1 })
                    }
                },
            },
            Phase::FinalWait => match ev {
                Event::Reply { len } => {
                    let p1 = ex_raise(self, len);
                    if p1.min == p1.ceiling {
                        ex_finish(p1)
                    } else {
                        ex_descend_from(p1, p1.ceiling)
                    }
                },
                Event::Timeout => ex_finish(ex_charge(self)),
            },
            Phase::Descent { cursor } => match ev {
                Event::Reply { len } => {
                    let p1 = ex_raise(self, len);
                    if len >= cursor {
                        ex_refine_go(p1, PROBE_STEP / 2)
                    } else {
                        ex_descend_from(p1, cursor)
                    }
                },
                Event::Timeout => {
                    let p1 = ex_charge(self);
                    if p1.budget_ms == 0 {
                        ex_finish(p1)
                    } else {
                        ex_descend_from(p1, cursor)
                    }
                },
            },
            Phase::Refine { step } => match ev {
                Event::Reply { len } => ex_refine_go(ex_raise(self, len), step / 2),
                Event::Timeout => {
                    let p1 = ex_charge(self);
                    if p1.budget_ms == 0 {
                        ex_finish(p1)
                    } else {
                        ex_refine_go(p1, step / 2)
                    }
                },
            },
            Phase::Stability { tries, above } => match ev {
                Event::Reply { len } => {
                    let probed = ex_stab_size(self, above);
                    let p1 = ex_raise(self, len);
                    if len >= probed {
                        ex_enter_stability(Probe { budget_ms: p1.total_ms, ..p1 })
                    } else if tries <= 1 {
                        ex_finish(p1)
                    } else {
                        ex_arm(
                            Probe {
                                phase: Phase::Stability { tries: tries - 1, above: !above },
                                ..p1
                            },
                        )
                    }
                },
                Event::Timeout => {
                    let p1 = ex_charge(self);
                    if p1.budget_ms == 0 || tries <= 1 {
                        ex_finish(p1)
                    } else {
                        ex_arm(
                            Probe {
                                phase: Phase::Stability { tries: tries - 1, above: !above },
                                ..p1
                            },
                        )
                    }
                },
            },
        }
    }
}

fn ex_outcome(p: Probe) -> (m: u16)
    ensures
        m == outcome(p),
{
    if p.confirmed {
        p.min
    } else {
        0
    }
}

fn ex_finish(p: Probe) -> (r: (Probe, Action))
    requires
        crate::MTU_MIN_IPV4 <= p.min <= p.ceiling <= crate::MTU_IPV4,
        p.budget_ms <= p.total_ms,
    ensures
        r == finish(p),
        r.0.inv(),
        action_ok(r.0, r.1),
{
    let m = ex_outcome(p);
    (Probe { phase: Phase::Done, ..p }, Action::Finish { mtu: m })
}

fn ex_wait_of(p: Probe) -> (w: u64)
    ensures
        w == wait_of(p),
{
    match p.phase {
        Phase::Floor { .. } => if QUICK_MS <= p.budget_ms {
            QUICK_MS
        } else {
            p.budget_ms
        },
        Phase::FinalWait => p.budget_ms,
        _ => if ATTEMPT_MS <= p.budget_ms {
            ATTEMPT_MS
        } else {
            p.budget_ms
        },
    }
}

fn ex_stab_size(p: Probe, above: bool) -> (s: u16)
    requires
        p.inv(),
    ensures
        s == stab_size(p, above),
{
    if above {
        p.min + 1
    } else {
        let mid = (p.min + p.ceiling) / 2;
        if mid > p.min {
            mid
        } else {
            p.min + 1
        }
    }
}

fn ex_sent_size(p: Probe) -> (s: u16)
    requires
        p.inv(),
    ensures
        s == sent_size(p),
{
    match p.phase {
        Phase::Ceiling => p.ceiling,
        Phase::Floor { .. } => p.min,
        Phase::FinalWait => p.min,
        Phase::Descent { cursor } => cursor,
        Phase::Refine { step } => p.min + step,
        Phase::Stability { above, .. } => ex_stab_size(p, above),
        Phase::Done => 0,
    }
}

fn ex_arm(p: Probe) -> (r: (Probe, Action))
    requires
        p.inv(),
    ensures
        r == arm(p),
        r.0.inv(),
        !(p.phase is Done) ==> action_ok(r.0, r.1),
{
    let w = ex_wait_of(p);
    match p.phase {
        Phase::FinalWait => (p, Action::Listen { wait_ms: w }),
        _ => {
            let s = ex_sent_size(p);
            (p, Action::Send { size: s, wait_ms: w })
        },
    }
}

fn ex_raise(p: Probe, len: u16) -> (r: Probe)
    requires
        p.inv(),
    ensures
        r == raise(p, len),
        r.min >= p.min,
        r.phase == p.phase,
{
    let capped = if len > p.ceiling {
        p.ceiling
    } else {
        len
    };
    Probe {
        min: if capped > p.min {
            capped
        } else {
            p.min
        },
        confirmed: true,
        ..p
    }
}

fn ex_charge(p: Probe) -> (r: Probe)
    requires
        p.inv(),
    ensures
        r == charge(p),
        r.inv(),
{
    let w = ex_wait_of(p);
    Probe { budget_ms: p.budget_ms - w, ..p }
}

fn ex_enter_stability(p: Probe) -> (r: (Probe, Action))
    requires
        crate::MTU_MIN_IPV4 <= p.min <= p.ceiling <= crate::MTU_IPV4,
        p.budget_ms <= p.total_ms,
        p.confirmed,
    ensures
        r == enter_stability(p),
        r.0.inv(),
        action_ok(r.0, r.1),
{
    if p.min == p.ceiling {
        ex_finish(p)
    } else {
        ex_arm(Probe { phase: Phase::Stability { tries: RETRY, above: true }, ..p })
    }
}

fn ex_refine_go(p: Probe, cap: u16) -> (r: (Probe, Action))
    requires
        crate::MTU_MIN_IPV4 <= p.min <= p.ceiling <= crate::MTU_IPV4,
        p.budget_ms <= p.total_ms,
        p.confirmed,
        cap <= 8,
    ensures
        r == refine_go(p, cap),
        r.0.inv(),
        action_ok(r.0, r.1),
{
    let s: u16 = if cap >= 8 && p.min + 8 <= p.ceiling {
        8
    } else if cap >= 4 && p.min + 4 <= p.ceiling {
        4
    } else if cap >= 2 && p.min + 2 <= p.ceiling {
        2
    } else if cap >= 1 && p.min + 1 <= p.ceiling {
        1
    } else {
        0
    };
    if s == 0 {
        ex_enter_stability(p)
    } else {
        ex_arm(Probe { phase: Phase::Refine { step: s }, ..p })
    }
}

fn ex_descend_from(p: Probe, from: u16) -> (r: (Probe, Action))
    requires
        crate::MTU_MIN_IPV4 <= p.min <= p.ceiling <= crate::MTU_IPV4,
        p.budget_ms <= p.total_ms,
        p.confirmed,
        p.min <= from <= p.ceiling,
    ensures
        r == descend_from(p, from),
        r.0.inv(),
        action_ok(r.0, r.1),
{
    if from >= p.min + PROBE_STEP {
        ex_arm(Probe { phase: Phase::Descent { cursor: from - PROBE_STEP }, ..p })
    } else {
        ex_refine_go(p, PROBE_STEP / 2)
    }
}

} // verus!
