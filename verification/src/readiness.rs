//! Readiness: polling the health endpoint until the backend answers or the
//! attempt budget is used up.
//!
//! The budget counts attempts, not elapsed time. Every failed attempt is
//! followed by one pause of fixed length, so a probe with a budget of `n`
//! that never succeeds makes `n` requests and pauses `n` times.

use vstd::prelude::*;

verus! {

/// The time allowed to a single health request, in seconds.
pub const REQUEST_TIMEOUT_SECS: u64 = 1;

/// The pause after a failed health request, in milliseconds.
pub const POLL_INTERVAL_MS: u64 = 300;

/// What a probe is waiting for.
#[derive(Clone, Copy, Debug, PartialEq, Eq)]
pub enum Probe {
    /// A health request is due; `waited` attempts have failed before it.
    Request { waited: u64 },
    /// The pause after the failed attempt number `waited` is due, counting
    /// from zero.
    Sleep { waited: u64 },
    /// The probe is over.
    Done { healthy: bool },
}

/// What the surroundings report back to a probe.
#[derive(Clone, Copy, Debug, PartialEq, Eq)]
pub enum ProbeEvent {
    /// The health request was made; `true` when a successful response came
    /// back, `false` on a refusal, a timeout or any other failure.
    Responded(bool),
    /// The pause is over.
    Slept,
}

/// Whether a health request found the backend ready. `status` is the status
/// code of the response, or nothing when none came: the connection was
/// refused, the request timed out, or it failed in any other way. Ready
/// means a response with a code of success, from 200 to 299.
pub open spec fn healthy_status(status: Option<u16>) -> bool {
    match status {
        Some(code) => 200 <= code <= 299,
        None => false,
    }
}

/// The state in which a probe with the given budget begins.
pub open spec fn probe_start(timeout_secs: u64) -> Probe {
    if 0 < timeout_secs {
        Probe::Request { waited: 0 }
    } else {
        Probe::Done { healthy: false }
    }
}

/// The state that follows `probe` on `event`. An event that does not answer
/// what the probe is waiting for leaves it as it is.
pub open spec fn probe_step(timeout_secs: u64, probe: Probe, event: ProbeEvent) -> Probe {
    match (probe, event) {
        (Probe::Request { waited }, ProbeEvent::Responded(true)) => Probe::Done { healthy: true },
        (Probe::Request { waited }, ProbeEvent::Responded(false)) => Probe::Sleep { waited },
        (Probe::Sleep { waited }, ProbeEvent::Slept) => if waited + 1 < timeout_secs {
            Probe::Request { waited: (waited + 1) as u64 }
        } else {
            Probe::Done { healthy: false }
        },
        _ => probe,
    }
}

/// What a whole probe amounts to.
pub struct ProbeTally {
    /// Whether a health request succeeded within the budget.
    pub healthy: bool,
    /// How many health requests were made.
    pub requests: nat,
    /// How many pauses were made.
    pub sleeps: nat,
}

/// An upper bound on the steps that `probe` can still take.
pub open spec fn steps_left(timeout_secs: u64, probe: Probe) -> nat {
    match probe {
        Probe::Request { waited } => if waited + 1 < timeout_secs {
            (2 * (timeout_secs - waited)) as nat
        } else {
            2
        },
        Probe::Sleep { waited } => if waited + 1 < timeout_secs {
            (2 * (timeout_secs - waited) - 1) as nat
        } else {
            1
        },
        Probe::Done { healthy } => 0,
    }
}

/// The tally of a probe that goes on from `probe`, when the health request
/// made after `i` failed attempts succeeds exactly if `answer(i)`.
pub open spec fn probe_run(
    timeout_secs: u64,
    probe: Probe,
    answer: spec_fn(u64) -> bool,
) -> ProbeTally
    decreases steps_left(timeout_secs, probe),
{
    match probe {
        Probe::Request { waited } => {
            let next = probe_step(timeout_secs, probe, ProbeEvent::Responded(answer(waited)));
            let rest = probe_run(timeout_secs, next, answer);
            ProbeTally { requests: rest.requests + 1, ..rest }
        },
        Probe::Sleep { waited } => {
            let next = probe_step(timeout_secs, probe, ProbeEvent::Slept);
            let rest = probe_run(timeout_secs, next, answer);
            ProbeTally { sleeps: rest.sleeps + 1, ..rest }
        },
        Probe::Done { healthy } => ProbeTally { healthy, requests: 0, sleeps: 0 },
    }
}

/// The tally of a whole probe with the given budget.
pub open spec fn probe_tally(timeout_secs: u64, answer: spec_fn(u64) -> bool) -> ProbeTally {
    probe_run(timeout_secs, probe_start(timeout_secs), answer)
}

/// Judges the outcome of one health request: ready on a response with a
/// status code from 200 to 299, not ready on any other code and when no
/// response came at all.
pub fn is_healthy(status: Option<u16>) -> (healthy: bool)
    ensures
        healthy == healthy_status(status),
{
    match status {
        Some(code) => 200 <= code && code <= 299,
        None => false,
    }
}

/// Begins a probe that gives up after `timeout_secs` failed attempts.
///
/// With a budget of zero the probe is over before any request is made, and
/// the backend counts as not ready.
pub fn begin_wait(timeout_secs: u64) -> (probe: Probe)
    ensures
        probe == probe_start(timeout_secs),
{
    if 0 < timeout_secs {
        Probe::Request { waited: 0 }
    } else {
        Probe::Done { healthy: false }
    }
}

/// Moves a probe with the budget `timeout_secs` on by one event.
///
/// A successful response ends the probe as healthy. A failed one is followed
/// by a pause. After the pause the next request is due, unless the budget is
/// used up: then the probe ends as not healthy. An event that the probe is
/// not waiting for changes nothing.
pub fn wait_ready(timeout_secs: u64, probe: Probe, event: ProbeEvent) -> (next: Probe)
    ensures
        next == probe_step(timeout_secs, probe, event),
{
    match probe {
        Probe::Request { waited } => match event {
            ProbeEvent::Responded(true) => Probe::Done { healthy: true },
            ProbeEvent::Responded(false) => Probe::Sleep { waited },
            ProbeEvent::Slept => probe,
        },
        Probe::Sleep { waited } => match event {
            ProbeEvent::Slept => if waited < timeout_secs && waited + 1 < timeout_secs {
                Probe::Request { waited: waited + 1 }
            } else {
                Probe::Done { healthy: false }
            },
            ProbeEvent::Responded(_) => probe,
        },
        Probe::Done { .. } => probe,
    }
}

/// Every event that moves a probe brings it closer to its end: a probe
/// with a budget of `n` is over after at most `2 * n` events.
pub proof fn lemma_probe_advances(timeout_secs: u64, probe: Probe, event: ProbeEvent)
    requires
        probe_step(timeout_secs, probe, event) != probe,
    ensures
        steps_left(timeout_secs, probe_step(timeout_secs, probe, event)) < steps_left(
            timeout_secs,
            probe,
        ),
        steps_left(timeout_secs, probe_start(timeout_secs)) <= 2 * timeout_secs,
{
}

/// From a due request after `waited` failures, a probe whose first success
/// comes after `first` failures makes the requests and pauses up to it.
proof fn lemma_run_until_success(
    timeout_secs: u64,
    waited: u64,
    first: u64,
    answer: spec_fn(u64) -> bool,
)
    requires
        waited <= first < timeout_secs,
        answer(first),
        forall|i: u64| waited <= i < first ==> !#[trigger] answer(i),
    ensures
        probe_run(timeout_secs, Probe::Request { waited }, answer) == (ProbeTally {
            healthy: true,
            requests: (first - waited + 1) as nat,
            sleeps: (first - waited) as nat,
        }),
    decreases first - waited,
{
    if waited < first {
        lemma_run_until_success(timeout_secs, (waited + 1) as u64, first, answer);
        let asleep = Probe::Sleep { waited };
        assert(probe_step(timeout_secs, asleep, ProbeEvent::Slept) == Probe::Request {
            waited: (waited + 1) as u64,
        });
        assert(probe_run(timeout_secs, asleep, answer).sleeps == first - waited);
    } else {
        assert(probe_run(timeout_secs, Probe::Done { healthy: true }, answer).requests == 0);
    }
}

/// From a due request after `waited` failures, a probe that never succeeds
/// uses up what is left of the budget.
proof fn lemma_run_until_exhausted(timeout_secs: u64, waited: u64, answer: spec_fn(u64) -> bool)
    requires
        waited < timeout_secs,
        forall|i: u64| waited <= i < timeout_secs ==> !#[trigger] answer(i),
    ensures
        probe_run(timeout_secs, Probe::Request { waited }, answer) == (ProbeTally {
            healthy: false,
            requests: (timeout_secs - waited) as nat,
            sleeps: (timeout_secs - waited) as nat,
        }),
    decreases timeout_secs - waited,
{
    let asleep = Probe::Sleep { waited };
    if waited + 1 < timeout_secs {
        lemma_run_until_exhausted(timeout_secs, (waited + 1) as u64, answer);
        assert(probe_step(timeout_secs, asleep, ProbeEvent::Slept) == Probe::Request {
            waited: (waited + 1) as u64,
        });
        assert(probe_run(timeout_secs, asleep, answer).sleeps == timeout_secs - waited);
    } else {
        assert(probe_step(timeout_secs, asleep, ProbeEvent::Slept) == Probe::Done {
            healthy: false,
        });
        assert(probe_run(timeout_secs, Probe::Done { healthy: false }, answer).requests == 0);
        assert(probe_run(timeout_secs, asleep, answer).sleeps == 1);
    }
}

/// A probe whose request after `first` failures is the first to succeed,
/// with `first` within the budget, ends as healthy after `first + 1`
/// requests and `first` pauses.
pub proof fn lemma_healthy_at_first_success(
    timeout_secs: u64,
    first: u64,
    answer: spec_fn(u64) -> bool,
)
    requires
        first < timeout_secs,
        answer(first),
        forall|i: u64| i < first ==> !#[trigger] answer(i),
    ensures
        probe_tally(timeout_secs, answer) == (ProbeTally {
            healthy: true,
            requests: (first + 1) as nat,
            sleeps: first as nat,
        }),
{
    lemma_run_until_success(timeout_secs, 0, first, answer);
}

/// A probe of which no request within the budget succeeds ends as not
/// healthy after as many requests, and as many pauses, as the budget holds.
pub proof fn lemma_unhealthy_when_budget_spent(timeout_secs: u64, answer: spec_fn(u64) -> bool)
    requires
        forall|i: u64| i < timeout_secs ==> !#[trigger] answer(i),
    ensures
        probe_tally(timeout_secs, answer) == (ProbeTally {
            healthy: false,
            requests: timeout_secs as nat,
            sleeps: timeout_secs as nat,
        }),
{
    if 0 < timeout_secs {
        lemma_run_until_exhausted(timeout_secs, 0, answer);
    }
}

/// A probe ends as healthy exactly if a health request within the budget
/// succeeds.
pub proof fn lemma_healthy_iff_success_within_budget(
    timeout_secs: u64,
    answer: spec_fn(u64) -> bool,
)
    ensures
        probe_tally(timeout_secs, answer).healthy <==> exists|i: u64|
            i < timeout_secs && #[trigger] answer(i),
{
    if exists|i: u64| i < timeout_secs && #[trigger] answer(i) {
        let some = choose|i: u64| i < timeout_secs && #[trigger] answer(i);
        let first = first_success(some, answer);
        lemma_first_success(some, answer);
        lemma_healthy_at_first_success(timeout_secs, first, answer);
    } else {
        lemma_unhealthy_when_budget_spent(timeout_secs, answer);
    }
}

/// The least number of failures after which a request succeeds, given that
/// the one after `bound` failures does.
spec fn first_success(bound: u64, answer: spec_fn(u64) -> bool) -> u64
    decreases bound,
{
    if bound == 0 {
        0
    } else if exists|i: u64| i < bound && #[trigger] answer(i) {
        first_success(choose|i: u64| i < bound && #[trigger] answer(i), answer)
    } else {
        bound
    }
}

/// `first_success` names a success before which every request fails.
proof fn lemma_first_success(bound: u64, answer: spec_fn(u64) -> bool)
    requires
        answer(bound),
    ensures
        first_success(bound, answer) <= bound,
        answer(first_success(bound, answer)),
        forall|i: u64| i < first_success(bound, answer) ==> !#[trigger] answer(i),
    decreases bound,
{
    if bound != 0 && exists|i: u64| i < bound && #[trigger] answer(i) {
        lemma_first_success(choose|i: u64| i < bound && #[trigger] answer(i), answer);
    }
}

} // verus!
