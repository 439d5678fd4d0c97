//! The search run to completion against simulated paths. These runs
//! pin down the search's convergence: a path that echoes any size ends
//! the search in one round at the ceiling; a path that delivers sizes
//! up to some boundary makes the search return exactly that boundary,
//! wherever it lies; and a path that never answers makes the search
//! return zero after waiting out exactly the configured budget.

use crate::probe::ATTEMPT_MS;
use crate::probe::Action;
use crate::probe::CONVERGE_MS;
use crate::probe::Event;
use crate::probe::PROBE_STEP;
use crate::probe::Phase;
use crate::probe::Probe;
use crate::probe::RETRY;
use crate::probe::action_ok;
use vstd::prelude::*;

verus! {

/// Rank of a phase in the search's forward order; it never goes back
/// up while the best size stands still.
spec fn phase_rank(ph: Phase) -> int {
    match ph {
        Phase::Ceiling => 6,
        Phase::Floor { .. } => 5,
        Phase::FinalWait => 4,
        Phase::Descent { .. } => 3,
        Phase::Refine { .. } => 2,
        Phase::Stability { .. } => 1,
        Phase::Done => 0,
    }
}

/// Within-phase progress: retries left, the descent cursor, or the
/// refinement step.
spec fn phase_local(ph: Phase) -> int {
    match ph {
        Phase::Floor { tries } => tries as int,
        Phase::Descent { cursor } => cursor as int,
        Phase::Refine { step } => step as int,
        Phase::Stability { tries, .. } => tries as int,
        _ => 0,
    }
}

/// How many refinement halvings are behind a given step size.
spec fn refine_spent_rank(step: u16) -> int {
    if step == 8 {
        0
    } else if step == 4 {
        1
    } else if step == 2 {
        2
    } else {
        3
    }
}

/// Invariant of a search run against a path that delivers exactly the
/// sizes up to `k` and echoes each delivered probe at once. The best
/// size never passes `k` whatever the budget; the exact phase ledger
/// below holds once the budget leaves room for the whole descent.
spec fn thr_inv(p: Probe, a: Action, k: u16, total: u64) -> bool {
    &&& p.inv()
    &&& action_ok(p, a)
    &&& crate::MTU_MIN_IPV4 <= k <= crate::MTU_IPV4
    &&& p.ceiling == crate::MTU_IPV4
    &&& p.total_ms == total
    &&& p.min <= k
    &&& !(p.phase is FinalWait)
    &&& (total >= CONVERGE_MS ==> thr_exact(p, k, total))
}

/// Phase-by-phase ledger of the run under an adequate budget: where
/// the boundary `k` must lie relative to the cursor or step, and how
/// much of the budget the timeouts so far have consumed.
spec fn thr_exact(p: Probe, k: u16, total: u64) -> bool {
    let spent = total - p.budget_ms;
    &&& (k == crate::MTU_IPV4 ==> (p.phase is Ceiling || p.phase is Done))
    &&& match p.phase {
        Phase::Ceiling => p.min == crate::MTU_MIN_IPV4 && !p.confirmed && spent == 0,
        Phase::Floor { tries } => tries == RETRY && p.min == crate::MTU_MIN_IPV4 && spent
            == ATTEMPT_MS,
        Phase::FinalWait => false,
        Phase::Descent { cursor } => {
            &&& p.min == crate::MTU_MIN_IPV4
            &&& cursor % PROBE_STEP == 0
            &&& k < cursor + PROBE_STEP
            &&& cursor <= crate::MTU_IPV4 - PROBE_STEP
            &&& 16 * spent == 16 * ATTEMPT_MS + ATTEMPT_MS * (crate::MTU_IPV4 - PROBE_STEP
                - cursor)
        },
        Phase::Refine { step } => {
            &&& p.min <= k < p.min + 2 * step
            &&& spent <= 58 * ATTEMPT_MS + ATTEMPT_MS * refine_spent_rank(step)
        },
        Phase::Stability { .. } => p.min == k,
        Phase::Done => p.min == k && p.confirmed,
    }
}

/// A destination with perfect response at any size: the ceiling probe
/// is answered at once and the search ends with the full ceiling after
/// exactly one round trip.
pub fn resolve_perfect(total_ms: u64) -> (out: (u16, u64))
    ensures
        out.0 == crate::MTU_IPV4,
        out.1 == 1,
{
    let started = Probe::start(total_ms);
    let p = started.0;
    let stepped = p.step(Event::Reply { len: crate::MTU_IPV4 });
    match stepped.1 {
        Action::Finish { mtu } => (mtu, 1),
        _ => (0, 1),
    }
}

/// The search against a path that delivers exactly the payload sizes
/// up to `k`, replying at once with the probed size and staying silent
/// above it. Whatever the budget, the search never claims more than
/// the path delivers; and once the budget leaves room for the descent
/// to cross the whole range, it converges on exactly `k`, wherever the
/// boundary lies between the floor and the ceiling, grid point or not.
pub fn resolve_threshold(total_ms: u64, k: u16) -> (mtu: u16)
    requires
        crate::MTU_MIN_IPV4 <= k <= crate::MTU_IPV4,
    ensures
        mtu <= k,
        total_ms >= CONVERGE_MS ==> mtu == k,
{
    let started = Probe::start(total_ms);
    let mut p = started.0;
    let mut a = started.1;
    loop
        invariant
            thr_inv(p, a, k, total_ms),
        decreases p.ceiling - p.min, phase_rank(p.phase), phase_local(p.phase),
    {
        match a {
            Action::Finish { mtu } => {
                return mtu;
            },
            Action::Send { size, .. } => {
                let ev = if size <= k {
                    Event::Reply { len: size }
                } else {
                    Event::Timeout
                };
                let stepped = p.step(ev);
                p = stepped.0;
                a = stepped.1;
            },
            Action::Listen { .. } => {
                // a listen round arises only in the final wait for a
                // floor reply, and this path answers every floor ping
                proof {
                    assert(false);
                }
                let stepped = p.step(Event::Timeout);
                p = stepped.0;
                a = stepped.1;
            },
        }
    }
}

/// Invariant of a search run against a destination that never replies.
spec fn silent_inv(p: Probe, a: Action, waited: u64, total: u64) -> bool {
    &&& p.inv()
    &&& action_ok(p, a)
    &&& !p.confirmed
    &&& p.total_ms == total
    &&& waited + p.budget_ms == total
    &&& (p.phase is Ceiling || p.phase is Floor || p.phase is FinalWait || p.phase is Done)
    &&& (p.phase is Done ==> waited == total)
}

/// The search against a destination that never replies at all: every
/// round times out, the search reports zero, and the time waited is
/// exactly the configured total budget — it can neither hang nor give
/// up early.
pub fn resolve_silent(total_ms: u64) -> (out: (u16, u64))
    ensures
        out.0 == 0,
        out.1 == total_ms,
{
    let started = Probe::start(total_ms);
    let mut p = started.0;
    let mut a = started.1;
    let mut waited: u64 = 0;
    loop
        invariant
            silent_inv(p, a, waited, total_ms),
        decreases phase_rank(p.phase), phase_local(p.phase),
    {
        match a {
            Action::Finish { mtu } => {
                return (mtu, waited);
            },
            Action::Send { size, wait_ms } => {
                waited = waited + wait_ms;
                let stepped = p.step(Event::Timeout);
                p = stepped.0;
                a = stepped.1;
            },
            Action::Listen { wait_ms } => {
                waited = waited + wait_ms;
                let stepped = p.step(Event::Timeout);
                p = stepped.0;
                a = stepped.1;
            },
        }
    }
}

} // verus!
