//! The supervisor: owner of the backend process from start to teardown.
//!
//! A start runs through port selection, launch and readiness probing, and
//! ends with the base URL published, or with no process at all when every
//! launch strategy failed. A close request takes the process away for
//! killing, once.

use vstd::multiset::Multiset;
use vstd::prelude::*;
use crate::address::{base_url, base_url_text, default_url, default_url_text};
use crate::port::{pick_port, port_decision, PortScan, PREFERRED_PORT};
use crate::readiness::{
    begin_wait,
    healthy_status,
    is_healthy,
    probe_start,
    probe_step,
    wait_ready,
    Probe,
    ProbeEvent,
    POLL_INTERVAL_MS,
    REQUEST_TIMEOUT_SECS,
};
use crate::spawn::{
    first_attempt,
    first_strategy,
    spawn_backend,
    spawn_step,
    BackendChild,
    SpawnOutcome,
    SpawnStep,
    StrategyKind,
};

verus! {

/// The attempt budget of the readiness probe that follows a launch.
pub const STARTUP_TIMEOUT_SECS: u64 = 20;

/// Where the supervisor stands.
#[derive(Clone, Copy, Debug, PartialEq, Eq)]
pub enum Phase {
    /// Nothing has been started.
    Idle,
    /// A port is being looked for; `probing` is the candidate under test.
    SelectingPort { probing: u16 },
    /// The backend is being launched on `port` with `strategy`.
    Spawning { port: u16, strategy: StrategyKind },
    /// The backend runs on `port` and is polled for its health.
    Probing { port: u16, probe: Probe },
    /// The backend runs on `port` and has answered a health request.
    Ready { port: u16 },
    /// The backend runs on `port` but answered no health request in time.
    Degraded { port: u16 },
    /// No strategy could launch the backend.
    Failed,
    /// The backend was taken away on a close request.
    Terminated,
}

/// What the surroundings report to a start in progress.
#[derive(Debug, PartialEq, Eq)]
pub enum Event<S, P> {
    /// The application asks for the backend.
    Start,
    /// The port under test was found free (`true`) or occupied.
    PortProbed(bool),
    /// A launch attempt has ended.
    Spawned(SpawnOutcome<S, P>),
    /// A health request has ended: with a response of this status code, or
    /// without any.
    HealthResponse(Option<u16>),
    /// The pause between two health requests is over.
    Slept,
}

/// What the surroundings are to do next.
#[derive(Debug, PartialEq, Eq)]
pub enum Action<S, P> {
    /// Attempt a connection to this port and report with `PortProbed`.
    ProbePort(u16),
    /// Launch the backend on `port` with `strategy` and report with
    /// `Spawned`.
    Spawn { port: u16, strategy: StrategyKind },
    /// Request the health endpoint on `port`, allow the answer
    /// `timeout_secs` seconds, and report with `HealthResponse`.
    RequestHealth { port: u16, timeout_secs: u64 },
    /// Pause for `millis` milliseconds and report with `Slept`.
    Sleep { millis: u64 },
    /// The base URL of this port is published: show the user interface.
    OpenWindow(u16),
    /// The launch has failed for good: give up the whole start.
    Abort,
    /// Kill this bundled executable.
    Kill(S),
    /// Kill this interpreter and wait until it has exited.
    KillAndWait(P),
    /// Nothing is to be done.
    Nothing,
}

/// The content of the supervisor's state: the phase and the one process
/// handle that may be owned.
pub struct Supervision<S, P> {
    pub phase: Phase,
    pub child: Option<BackendChild<S, P>>,
}

/// The phase and the request that follow when the probe on `port` has
/// moved to `probe`.
pub open spec fn probe_outcome<S, P>(port: u16, probe: Probe) -> (Phase, Action<S, P>) {
    match probe {
        Probe::Request { waited } => (
            Phase::Probing { port, probe },
            Action::RequestHealth { port, timeout_secs: REQUEST_TIMEOUT_SECS },
        ),
        Probe::Sleep { waited } => (
            Phase::Probing { port, probe },
            Action::Sleep { millis: POLL_INTERVAL_MS },
        ),
        Probe::Done { healthy } => if healthy {
            (Phase::Ready { port }, Action::OpenWindow(port))
        } else {
            (Phase::Degraded { port }, Action::OpenWindow(port))
        },
    }
}

/// The teardown of a process: an interpreter is also waited for, so that
/// it leaves no zombie behind.
pub open spec fn teardown<S, P>(child: BackendChild<S, P>) -> Action<S, P> {
    match child {
        BackendChild::Sidecar(c) => Action::Kill(c),
        BackendChild::Python(c) => Action::KillAndWait(c),
    }
}

/// The teardown of a process that is reported at a time when it cannot be
/// taken in.
pub open spec fn turn_away<S, P>(outcome: SpawnOutcome<S, P>) -> Action<S, P> {
    match outcome {
        SpawnOutcome::Sidecar(Some(c)) => Action::Kill(c),
        SpawnOutcome::Interpreter(Some(c)) => Action::KillAndWait(c),
        _ => Action::Nothing,
    }
}

impl<S, P> Supervision<S, P> {
    /// The state before anything has happened.
    pub open spec fn idle() -> Self {
        Supervision { phase: Phase::Idle, child: None }
    }

    /// A process is owned exactly from the moment it runs until it is
    /// taken away, and a probe in progress is never over.
    pub open spec fn wf(self) -> bool {
        match self.phase {
            Phase::Probing { port, probe } => self.child is Some && !(probe is Done),
            Phase::Ready { port } => self.child is Some,
            Phase::Degraded { port } => self.child is Some,
            _ => self.child is None,
        }
    }

    /// The port whose base URL is published, if one is.
    pub open spec fn published(self) -> Option<u16> {
        match self.phase {
            Phase::Ready { port } => Some(port),
            Phase::Degraded { port } => Some(port),
            _ => None,
        }
    }

    /// The port that was selected for the backend, once one was.
    pub open spec fn selected(self) -> Option<u16> {
        match self.phase {
            Phase::Spawning { port, strategy } => Some(port),
            Phase::Probing { port, probe } => Some(port),
            Phase::Ready { port } => Some(port),
            Phase::Degraded { port } => Some(port),
            _ => None,
        }
    }

    /// The address that a query for the base URL is answered with.
    pub open spec fn url_text(self) -> Seq<char> {
        match self.published() {
            Some(port) => base_url_text(port),
            None => default_url_text(),
        }
    }

    /// This state in another phase.
    pub open spec fn at(self, phase: Phase) -> Self {
        Supervision { phase, child: self.child }
    }

    /// The state and the request that follow `event` in a start.
    ///
    /// An event that the phase does not wait for changes nothing and asks
    /// for nothing, with one exception: a live process that is reported at
    /// such a time is turned away for killing, so that none is ever lost.
    pub open spec fn start_step(self, event: Event<S, P>) -> (Self, Action<S, P>) {
        match event {
            Event::Start => match self.phase {
                Phase::Idle => (
                    self.at(Phase::SelectingPort { probing: PREFERRED_PORT }),
                    Action::ProbePort(PREFERRED_PORT),
                ),
                _ => (self, Action::Nothing),
            },
            Event::PortProbed(available) => match self.phase {
                Phase::SelectingPort { probing } => match port_decision(probing, available) {
                    PortScan::Probe(next) => (
                        self.at(Phase::SelectingPort { probing: next }),
                        Action::ProbePort(next),
                    ),
                    PortScan::Chosen(port) => (
                        self.at(Phase::Spawning { port, strategy: first_strategy() }),
                        Action::Spawn { port, strategy: first_strategy() },
                    ),
                },
                _ => (self, Action::Nothing),
            },
            Event::Spawned(outcome) => match self.phase {
                Phase::Spawning { port, strategy } => match spawn_step(strategy, outcome) {
                    SpawnStep::Try(next) => (
                        self.at(Phase::Spawning { port, strategy: next }),
                        Action::Spawn { port, strategy: next },
                    ),
                    SpawnStep::Running(child) => {
                        let (phase, action) = probe_outcome::<S, P>(
                            port,
                            probe_start(STARTUP_TIMEOUT_SECS),
                        );
                        (Supervision { phase, child: Some(child) }, action)
                    },
                    SpawnStep::Failed => (self.at(Phase::Failed), Action::Abort),
                },
                _ => (self, turn_away(outcome)),
            },
            Event::HealthResponse(status) => match self.phase {
                Phase::Probing { port, probe: Probe::Request { waited } } => {
                    let (phase, action) = probe_outcome::<S, P>(
                        port,
                        probe_step(
                            STARTUP_TIMEOUT_SECS,
                            Probe::Request { waited },
                            ProbeEvent::Responded(healthy_status(status)),
                        ),
                    );
                    (self.at(phase), action)
                },
                _ => (self, Action::Nothing),
            },
            Event::Slept => match self.phase {
                Phase::Probing { port, probe: Probe::Sleep { waited } } => {
                    let (phase, action) = probe_outcome::<S, P>(
                        port,
                        probe_step(STARTUP_TIMEOUT_SECS, Probe::Sleep { waited }, ProbeEvent::Slept),
                    );
                    (self.at(phase), action)
                },
                _ => (self, Action::Nothing),
            },
        }
    }

    /// The state and the request that follow a close request.
    ///
    /// An owned process is taken away for killing. A start that has no
    /// process yet is called off: a process that it still brings forth is
    /// turned away. In every other state nothing changes.
    pub open spec fn close_step(self) -> (Self, Action<S, P>) {
        match self.child {
            Some(child) => (Supervision { phase: Phase::Terminated, child: None }, teardown(child)),
            None => match self.phase {
                Phase::SelectingPort { probing } => (self.at(Phase::Terminated), Action::Nothing),
                Phase::Spawning { port, strategy } => (
                    self.at(Phase::Terminated),
                    Action::Nothing,
                ),
                _ => (self, Action::Nothing),
            },
        }
    }
}

/// The supervisor's state: the process it owns, if any, and how far the
/// start has come. There is one per application; where several threads
/// reach it, the application keeps it behind one lock.
pub struct AppState<S, P> {
    phase: Phase,
    child: Option<BackendChild<S, P>>,
}

impl<S, P> View for AppState<S, P> {
    type V = Supervision<S, P>;

    closed spec fn view(&self) -> Supervision<S, P> {
        Supervision { phase: self.phase, child: self.child }
    }
}

/// The phase and the request that follow when the probe on `port` has moved
/// to `probe`.
fn after_probe<S, P>(port: u16, probe: Probe) -> (next: (Phase, Action<S, P>))
    ensures
        next == probe_outcome::<S, P>(port, probe),
{
    match probe {
        Probe::Request { .. } => (
            Phase::Probing { port, probe },
            Action::RequestHealth { port, timeout_secs: REQUEST_TIMEOUT_SECS },
        ),
        Probe::Sleep { .. } => (
            Phase::Probing { port, probe },
            Action::Sleep { millis: POLL_INTERVAL_MS },
        ),
        Probe::Done { healthy } => if healthy {
            (Phase::Ready { port }, Action::OpenWindow(port))
        } else {
            (Phase::Degraded { port }, Action::OpenWindow(port))
        },
    }
}

impl<S, P> AppState<S, P> {
    #[verifier::type_invariant]
    spec fn well_formed(&self) -> bool {
        self@.wf()
    }

    /// A supervisor that owns no process and has published no URL.
    pub fn new() -> (state: Self)
        ensures
            state@ == Supervision::<S, P>::idle(),
    {
        AppState { phase: Phase::Idle, child: None }
    }

    /// The phase in which the supervisor stands.
    pub fn phase(&self) -> (phase: Phase)
        ensures
            phase == self@.phase,
            self@.wf(),
    {
        proof {
            use_type_invariant(self);
        }
        self.phase
    }

    /// Whether a process is owned.
    pub fn owns_child(&self) -> (owned: bool)
        ensures
            owned == self@.child is Some,
    {
        self.child.is_some()
    }

    /// The published base URL, `http://127.0.0.1:<port>/` with the port that
    /// was selected for the backend; before one is published, and after the
    /// backend was taken away, the fixed address `http://127.0.0.1:8000`.
    pub fn get_backend_url(&self) -> (url: String)
        ensures
            url@ == self@.url_text(),
    {
        match self.phase {
            Phase::Ready { port } => base_url(port),
            Phase::Degraded { port } => base_url(port),
            _ => default_url(),
        }
    }

    /// Moves the start on by one event and says what is to be done next.
    ///
    /// A start begins with `Event::Start` and is over when the request is
    /// `OpenWindow`, `Abort` or `Nothing`. `Abort` means that no strategy
    /// could launch the backend: no process is owned and no URL is
    /// published, and the application is expected to give up.
    pub fn start(&mut self, event: Event<S, P>) -> (action: Action<S, P>)
        ensures
            (final(self)@, action) == old(self)@.start_step(event),
            old(self)@.wf(),
            final(self)@.wf(),
    {
        proof {
            use_type_invariant(&*self);
        }
        let phase = self.phase;
        match event {
            Event::Start => match phase {
                Phase::Idle => {
                    self.phase = Phase::SelectingPort { probing: PREFERRED_PORT };
                    Action::ProbePort(PREFERRED_PORT)
                },
                _ => Action::Nothing,
            },
            Event::PortProbed(available) => match phase {
                Phase::SelectingPort { probing } => match pick_port(probing, available) {
                    PortScan::Probe(next) => {
                        self.phase = Phase::SelectingPort { probing: next };
                        Action::ProbePort(next)
                    },
                    PortScan::Chosen(port) => {
                        let strategy = first_attempt();
                        self.phase = Phase::Spawning { port, strategy };
                        Action::Spawn { port, strategy }
                    },
                },
                _ => Action::Nothing,
            },
            Event::Spawned(outcome) => match phase {
                Phase::Spawning { port, strategy } => match spawn_backend(strategy, outcome) {
                    SpawnStep::Try(next) => {
                        self.phase = Phase::Spawning { port, strategy: next };
                        Action::Spawn { port, strategy: next }
                    },
                    SpawnStep::Running(child) => {
                        let (phase, action) = after_probe(port, begin_wait(STARTUP_TIMEOUT_SECS));
                        *self = AppState { phase, child: Some(child) };
                        action
                    },
                    SpawnStep::Failed => {
                        self.phase = Phase::Failed;
                        Action::Abort
                    },
                },
                _ => match outcome {
                    SpawnOutcome::Sidecar(Some(c)) => Action::Kill(c),
                    SpawnOutcome::Interpreter(Some(c)) => Action::KillAndWait(c),
                    _ => Action::Nothing,
                },
            },
            Event::HealthResponse(status) => match phase {
                Phase::Probing { port, probe: Probe::Request { waited } } => {
                    let next = wait_ready(
                        STARTUP_TIMEOUT_SECS,
                        Probe::Request { waited },
                        ProbeEvent::Responded(is_healthy(status)),
                    );
                    let (phase, action) = after_probe(port, next);
                    self.phase = phase;
                    action
                },
                _ => Action::Nothing,
            },
            Event::Slept => match phase {
                Phase::Probing { port, probe: Probe::Sleep { waited } } => {
                    let next = wait_ready(
                        STARTUP_TIMEOUT_SECS,
                        Probe::Sleep { waited },
                        ProbeEvent::Slept,
                    );
                    let (phase, action) = after_probe(port, next);
                    self.phase = phase;
                    action
                },
                _ => Action::Nothing,
            },
        }
    }

    /// Takes the owned process away and says how to kill it.
    ///
    /// The bundled executable is killed; an interpreter is killed and then
    /// waited for. Afterwards no process is owned and no URL is published.
    /// Without a process there is nothing to kill: a start in progress is
    /// called off, and a supervisor that is idle, has failed or was closed
    /// before stays as it is. A failure to kill is not reported back; the
    /// application is closing anyway.
    pub fn kill_child(&mut self) -> (action: Action<S, P>)
        ensures
            (final(self)@, action) == old(self)@.close_step(),
            final(self)@.child is None,
            final(self)@.wf(),
    {
        let mut state = AppState { phase: Phase::Terminated, child: None };
        core::mem::swap(self, &mut state);
        proof {
            use_type_invariant(&state);
        }
        let AppState { phase, child } = state;
        match child {
            Some(BackendChild::Sidecar(c)) => Action::Kill(c),
            Some(BackendChild::Python(c)) => Action::KillAndWait(c),
            None => match phase {
                Phase::SelectingPort { .. } => Action::Nothing,
                Phase::Spawning { .. } => Action::Nothing,
                _ => {
                    self.phase = phase;
                    Action::Nothing
                },
            },
        }
    }
}

/// The processes that a state owns: at most one.
pub open spec fn owned<S, P>(child: Option<BackendChild<S, P>>) -> Multiset<BackendChild<S, P>> {
    match child {
        Some(child) => Multiset::singleton(child),
        None => Multiset::empty(),
    }
}

/// The processes that an event brings along: the one of a launch that
/// succeeded.
pub open spec fn brought<S, P>(event: Event<S, P>) -> Multiset<BackendChild<S, P>> {
    match event {
        Event::Spawned(SpawnOutcome::Sidecar(Some(c))) => Multiset::singleton(
            BackendChild::Sidecar(c),
        ),
        Event::Spawned(SpawnOutcome::Interpreter(Some(c))) => Multiset::singleton(
            BackendChild::Python(c),
        ),
        _ => Multiset::empty(),
    }
}

/// The processes that a request hands over for killing.
pub open spec fn given_up<S, P>(action: Action<S, P>) -> Multiset<BackendChild<S, P>> {
    match action {
        Action::Kill(c) => Multiset::singleton(BackendChild::Sidecar(c)),
        Action::KillAndWait(c) => Multiset::singleton(BackendChild::Python(c)),
        _ => Multiset::empty(),
    }
}

/// No process is ever lost: whatever a step of a start is given, it either
/// owns afterwards or hands over for killing, under the tag of its kind.
pub proof fn lemma_start_loses_no_process<S, P>(state: Supervision<S, P>, event: Event<S, P>)
    requires
        state.wf(),
    ensures
        owned(state.child).add(brought(event)) == owned(state.start_step(event).0.child).add(
            given_up(state.start_step(event).1),
        ),
{
    let next = state.start_step(event);
    assert(owned(state.child).add(brought(event)) =~= owned(next.0.child).add(given_up(next.1)));
}

/// A close request hands over for killing exactly what was owned.
pub proof fn lemma_close_gives_up_what_was_owned<S, P>(state: Supervision<S, P>)
    ensures
        given_up(state.close_step().1) == owned(state.child),
        owned(state.close_step().0.child) == Multiset::<BackendChild<S, P>>::empty(),
{
}

/// Every step of a start leaves the state well formed: a URL is published
/// only while a process is owned.
pub proof fn lemma_start_keeps_well_formed<S, P>(state: Supervision<S, P>, event: Event<S, P>)
    requires
        state.wf(),
    ensures
        state.start_step(event).0.wf(),
        state.start_step(event).0.published() is Some ==> state.start_step(event).0.child is Some,
{
}

/// Once a port is selected, no step of a start moves to another: the port
/// that is launched on is the one probed for health and the one published.
pub proof fn lemma_start_keeps_selected_port<S, P>(
    state: Supervision<S, P>,
    event: Event<S, P>,
    port: u16,
)
    requires
        state.selected() == Some(port),
    ensures
        state.start_step(event).0.selected() is Some ==> state.start_step(event).0.selected()
            == Some(port),
        state.start_step(event).0.published() is Some ==> state.start_step(event).0.url_text()
            == base_url_text(port),
{
}

/// The user interface is asked for exactly when a base URL becomes
/// published, and for the port of that URL: never before, and never a
/// second time, since a published URL stays as it is through every further
/// step of a start.
pub proof fn lemma_window_follows_publication<S, P>(state: Supervision<S, P>, event: Event<S, P>)
    ensures
        state.start_step(event).1 is OpenWindow <==> state.published() is None
            && state.start_step(event).0.published() is Some,
        state.start_step(event).1 matches Action::OpenWindow(port) ==> state.start_step(
            event,
        ).0.published() == Some(port),
        state.published() is Some ==> state.start_step(event).0.published() == state.published(),
{
}

/// A close request leaves a well-formed state without a process and
/// without a published URL.
pub proof fn lemma_close_clears<S, P>(state: Supervision<S, P>)
    requires
        state.wf(),
    ensures
        state.close_step().0.wf(),
        state.close_step().0.child is None,
        state.close_step().0.published() is None,
        state.close_step().0.url_text() == default_url_text(),
{
}

/// A second close request in a row changes nothing and asks for nothing.
pub proof fn lemma_close_twice_is_close_once<S, P>(state: Supervision<S, P>)
    ensures
        state.close_step().0.close_step() == (state.close_step().0, Action::<S, P>::Nothing),
{
}

} // verus!
