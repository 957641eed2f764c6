//! A whole start, from the first probe to the published URL.
//!
//! The supervisor decides step by step. What its steps add up to depends
//! on the surroundings: which ports are free, which launch succeeds, when
//! the backend answers. This module fixes such surroundings as a
//! mathematical object, follows a start through them, and states where it
//! ends.

use vstd::prelude::*;
use crate::address::base_url_text;
use crate::port::{probes_after, scan_from, scan_result, PREFERRED_PORT};
use crate::readiness::{
    healthy_status,
    probe_run,
    probe_start,
    probe_step,
    probe_tally,
    steps_left,
    Probe,
    ProbeEvent,
    REQUEST_TIMEOUT_SECS,
};
use crate::spawn::{first_strategy, BackendChild, SpawnOutcome, StrategyKind};
use crate::supervisor::{
    probe_outcome,
    Action,
    Event,
    Phase,
    Supervision,
    STARTUP_TIMEOUT_SECS,
};

verus! {

/// The surroundings of a start, as far as they decide its course.
pub struct World<S, P> {
    /// The ports to which a connection attempt fails.
    pub free: Set<u16>,
    /// What the launch of the bundled executable brings forth.
    pub sidecar: Option<S>,
    /// What the launch of the interpreter brings forth.
    pub interpreter: Option<P>,
    /// How the health request made after so many failed ones ends: with a
    /// response of this status code, or without any.
    pub status: spec_fn(u64) -> Option<u16>,
}

impl<S, P> World<S, P> {
    /// Whether the health request made after so many failed ones finds
    /// the backend ready.
    pub open spec fn answer(self) -> spec_fn(u64) -> bool {
        |i: u64| healthy_status((self.status)(i))
    }

    /// The outcome of a launch attempt with `strategy`.
    pub open spec fn launch(self, strategy: StrategyKind) -> SpawnOutcome<S, P> {
        match strategy {
            StrategyKind::Sidecar => SpawnOutcome::Sidecar(self.sidecar),
            StrategyKind::Interpreter => SpawnOutcome::Interpreter(self.interpreter),
        }
    }

    /// The process that a launch ends with: that of the first strategy, in
    /// order, that brings one forth.
    pub open spec fn launched(self) -> Option<BackendChild<S, P>> {
        match self.sidecar {
            Some(child) => Some(BackendChild::Sidecar(child)),
            None => match self.interpreter {
                Some(child) => Some(BackendChild::Python(child)),
                None => None,
            },
        }
    }

    /// The event with which the surroundings answer `action`, requested in
    /// `state`; none when the request ends the start.
    pub open spec fn reply(self, state: Supervision<S, P>, action: Action<S, P>) -> Option<
        Event<S, P>,
    > {
        match action {
            Action::ProbePort(port) => Some(Event::PortProbed(self.free.contains(port))),
            Action::Spawn { port, strategy } => Some(Event::Spawned(self.launch(strategy))),
            Action::RequestHealth { port, timeout_secs } => match state.phase {
                Phase::Probing { port, probe: Probe::Request { waited } } => Some(
                    Event::HealthResponse((self.status)(waited)),
                ),
                _ => None,
            },
            Action::Sleep { millis } => Some(Event::Slept),
            _ => None,
        }
    }
}

/// An upper bound on the steps that a start in `state` can still take.
pub open spec fn steps_ahead<S, P>(state: Supervision<S, P>) -> nat {
    match state.phase {
        Phase::SelectingPort { probing } => 2 * STARTUP_TIMEOUT_SECS as nat + 3 + probes_after(
            probing,
        ),
        Phase::Spawning { port, strategy: StrategyKind::Sidecar } => 2 * STARTUP_TIMEOUT_SECS as nat
            + 2,
        Phase::Spawning { port, strategy: StrategyKind::Interpreter } => 2
            * STARTUP_TIMEOUT_SECS as nat + 1,
        Phase::Probing { port, probe } => steps_left(STARTUP_TIMEOUT_SECS, probe),
        _ => 0,
    }
}

/// The state and the last request of a start that goes on from `state`
/// with `action` requested: the surroundings answer each request, and the
/// answer is stepped on, until a request is left unanswered or an answer
/// changes nothing.
pub open spec fn run<S, P>(world: World<S, P>, state: Supervision<S, P>, action: Action<S, P>) -> (
    Supervision<S, P>,
    Action<S, P>,
)
    decreases steps_ahead(state),
{
    match world.reply(state, action) {
        Some(event) => {
            let next = state.start_step(event);
            if next.0 != state {
                run(world, next.0, next.1)
            } else {
                next
            }
        },
        None => (state, action),
    }
}

/// The state and the last request of a whole start.
pub open spec fn startup<S, P>(world: World<S, P>) -> (Supervision<S, P>, Action<S, P>) {
    let first = Supervision::<S, P>::idle().start_step(Event::Start);
    run(world, first.0, first.1)
}

/// The phase in which the backend is launched on `port` for the first time.
pub open spec fn launching(port: u16) -> Phase {
    Phase::Spawning { port, strategy: first_strategy() }
}

/// The request for the first launch on `port`.
pub open spec fn first_launch<S, P>(port: u16) -> Action<S, P> {
    Action::Spawn { port, strategy: first_strategy() }
}

/// The phase in which a probe on `port` ends.
pub open spec fn probed_phase(port: u16, healthy: bool) -> Phase {
    if healthy {
        Phase::Ready { port }
    } else {
        Phase::Degraded { port }
    }
}

/// Every answer to a request that moves the start brings it closer to its
/// end, so that every start ends.
pub proof fn lemma_start_advances<S, P>(
    world: World<S, P>,
    state: Supervision<S, P>,
    action: Action<S, P>,
    event: Event<S, P>,
)
    requires
        world.reply(state, action) == Some(event),
        state.start_step(event).0 != state,
    ensures
        steps_ahead(state.start_step(event).0) < steps_ahead(state),
{
}

/// A start that is probing `p` goes on as one that launches on the port
/// that the scan from `p` ends on.
proof fn lemma_run_selects<S, P>(world: World<S, P>, state: Supervision<S, P>, p: u16)
    requires
        state.phase == (Phase::SelectingPort { probing: p }),
    ensures
        run(world, state, Action::ProbePort(p)) == run(
            world,
            state.at(launching(scan_from(p, world.free))),
            first_launch(scan_from(p, world.free)),
        ),
    decreases probes_after(p),
{
    let event = Event::<S, P>::PortProbed(world.free.contains(p));
    assert(world.reply(state, Action::ProbePort(p)) == Some(event));
    let next = state.start_step(event);
    assert(next.0 != state);
    assert(run(world, state, Action::ProbePort(p)) == run(world, next.0, next.1));
    match next.0.phase {
        Phase::SelectingPort { probing } => {
            lemma_run_selects(world, next.0, probing);
            assert(next.0.at(launching(scan_from(probing, world.free))) == state.at(
                launching(scan_from(p, world.free)),
            ));
        },
        _ => {},
    }
}

/// A start that is probing the backend on `port` ends with the URL of
/// `port` published, ready or degraded as the probe turns out.
proof fn lemma_run_probes<S, P>(
    world: World<S, P>,
    state: Supervision<S, P>,
    port: u16,
    probe: Probe,
)
    requires
        state.phase == (Phase::Probing { port, probe }),
        !(probe is Done),
    ensures
        run(world, state, probe_outcome::<S, P>(port, probe).1) == (
            state.at(
                probed_phase(port, probe_run(STARTUP_TIMEOUT_SECS, probe, world.answer()).healthy),
            ),
            Action::<S, P>::OpenWindow(port),
        ),
    decreases steps_left(STARTUP_TIMEOUT_SECS, probe),
{
    let action = probe_outcome::<S, P>(port, probe).1;
    let event = world.reply(state, action)->0;
    assert(world.reply(state, action) is Some);
    if let Probe::Request { waited } = probe {
        assert((world.answer())(waited) == healthy_status((world.status)(waited)));
    }
    let next = state.start_step(event);
    assert(next.0 != state);
    assert(run(world, state, action) == run(world, next.0, next.1));
    match next.0.phase {
        Phase::Probing { port: same, probe: later } => {
            assert(same == port);
            assert(later == match probe {
                Probe::Request { waited } => probe_step(
                    STARTUP_TIMEOUT_SECS,
                    probe,
                    ProbeEvent::Responded((world.answer())(waited)),
                ),
                _ => probe_step(STARTUP_TIMEOUT_SECS, probe, ProbeEvent::Slept),
            });
            lemma_run_probes(world, next.0, port, later);
            let healthy = probe_run(STARTUP_TIMEOUT_SECS, later, world.answer()).healthy;
            assert(probe_run(STARTUP_TIMEOUT_SECS, probe, world.answer()).healthy == healthy);
            assert(next.0.at(probed_phase(port, healthy)) == state.at(probed_phase(port, healthy)));
        },
        _ => {
            assert(world.reply(next.0, next.1) is None);
            assert(run(world, next.0, next.1) == next);
        },
    }
}

/// A start ends on the first launch that brings forth a process.
proof fn lemma_run_launches<S, P>(
    world: World<S, P>,
    state: Supervision<S, P>,
    port: u16,
    child: BackendChild<S, P>,
)
    requires
        state.phase == launching(port),
        world.launched() == Some(child),
    ensures
        run(world, state, first_launch(port)) == (
            Supervision {
                phase: probed_phase(
                    port,
                    probe_tally(STARTUP_TIMEOUT_SECS, world.answer()).healthy,
                ),
                child: Some(child),
            },
            Action::<S, P>::OpenWindow(port),
        ),
{
    let begun = probe_start(STARTUP_TIMEOUT_SECS);
    let probing = Supervision { phase: Phase::Probing { port, probe: begun }, child: Some(child) };
    lemma_run_probes(world, probing, port, begun);
    let asked = Action::<S, P>::RequestHealth { port, timeout_secs: REQUEST_TIMEOUT_SECS };
    assert(probe_outcome::<S, P>(port, begun) == (probing.phase, asked));
    let first = state.start_step(Event::Spawned(world.launch(StrategyKind::Sidecar)));
    assert(world.reply(state, first_launch(port)) == Some(
        Event::Spawned(world.launch(StrategyKind::Sidecar)),
    ));
    assert(first.0 != state);
    assert(run(world, state, first_launch(port)) == run(world, first.0, first.1));
    if world.sidecar is None {
        let second = first.0.start_step(Event::Spawned(world.launch(StrategyKind::Interpreter)));
        assert(world.reply(first.0, first.1) == Some(
            Event::Spawned(world.launch(StrategyKind::Interpreter)),
        ));
        assert(second.0 != first.0);
        assert(run(world, first.0, first.1) == run(world, second.0, second.1));
        assert(second == (probing, asked));
    } else {
        assert(first == (probing, asked));
    }
}

/// A start of which no launch brings forth a process is given up.
proof fn lemma_run_fails<S, P>(world: World<S, P>, state: Supervision<S, P>, port: u16)
    requires
        state.phase == launching(port),
        world.launched() is None,
    ensures
        run(world, state, first_launch(port)) == (state.at(Phase::Failed), Action::<S, P>::Abort),
{
    let first = state.start_step(Event::Spawned(world.launch(StrategyKind::Sidecar)));
    assert(world.reply(state, first_launch(port)) == Some(
        Event::Spawned(world.launch(StrategyKind::Sidecar)),
    ));
    assert(first.0 != state);
    assert(run(world, state, first_launch(port)) == run(world, first.0, first.1));
    let second = first.0.start_step(Event::Spawned(world.launch(StrategyKind::Interpreter)));
    assert(world.reply(first.0, first.1) == Some(
        Event::Spawned(world.launch(StrategyKind::Interpreter)),
    ));
    assert(second.0 != first.0);
    assert(run(world, first.0, first.1) == run(world, second.0, second.1));
    assert(world.reply(second.0, second.1) is None);
    assert(run(world, second.0, second.1) == second);
}

/// A start in which a launch succeeds ends with the user interface asked
/// for, with exactly the launched process owned, and with the base URL of
/// the selected port published: ready when a health request within the
/// budget succeeds, degraded when none does.
pub proof fn lemma_successful_start<S, P>(world: World<S, P>, child: BackendChild<S, P>)
    requires
        world.launched() == Some(child),
    ensures
        startup(world).1 == Action::<S, P>::OpenWindow(scan_result(world.free)),
        startup(world).0.child == Some(child),
        startup(world).0.phase == probed_phase(
            scan_result(world.free),
            probe_tally(STARTUP_TIMEOUT_SECS, world.answer()).healthy,
        ),
        startup(world).0.published() == Some(scan_result(world.free)),
        startup(world).0.url_text() == base_url_text(scan_result(world.free)),
        startup(world).0.wf(),
{
    let first = Supervision::<S, P>::idle().start_step(Event::Start);
    lemma_run_selects(world, first.0, PREFERRED_PORT);
    let port = scan_result(world.free);
    lemma_run_launches(world, first.0.at(launching(port)), port, child);
}

/// A start in which every launch fails is given up: no process is owned,
/// no URL is published and the user interface is never asked for.
pub proof fn lemma_failed_start<S, P>(world: World<S, P>)
    requires
        world.launched() is None,
    ensures
        startup(world).1 == Action::<S, P>::Abort,
        startup(world).0.phase == Phase::Failed,
        startup(world).0.child is None,
        startup(world).0.published() is None,
        startup(world).0.wf(),
{
    let first = Supervision::<S, P>::idle().start_step(Event::Start);
    lemma_run_selects(world, first.0, PREFERRED_PORT);
    let port = scan_result(world.free);
    lemma_run_fails(world, first.0.at(launching(port)), port);
}

} // verus!
