//! Launching the backend: an ordered list of strategies, each with its
//! command line and the environment variables its child must see.
//!
//! The packaged sidecar executable comes first. When it cannot be launched,
//! an interpreter runs the backend from source. When that fails too, the
//! launch has failed for good: nothing is retried.

use vstd::prelude::*;
use vstd::string::*;
use crate::address::{decimal, port_text};

verus! {

/// The name under which the bundled executable is known.
pub const SIDECAR_NAME: &'static str = "runicorn-viewer";

/// The variable through which the backend learns where the static assets
/// lie.
pub const FRONTEND_DIST_VARIABLE: &'static str = "RUNICORN_FRONTEND_DIST";

/// The variable with which the operator names the interpreter.
pub const INTERPRETER_VARIABLE: &'static str = "RUNICORN_DESKTOP_PY";

/// The variable that holds the interpreter's module search path.
pub const SEARCH_PATH_VARIABLE: &'static str = "PYTHONPATH";

/// The interpreter that is used when the operator names none.
pub const DEFAULT_INTERPRETER: &'static str = "python";

/// The ways in which the backend can be launched.
#[derive(Clone, Copy, Debug, PartialEq, Eq)]
pub enum StrategyKind {
    /// The executable that is bundled with the application.
    Sidecar,
    /// An external interpreter that runs the backend as a module.
    Interpreter,
}

/// An environment variable that a launched child must see.
#[derive(Debug, PartialEq, Eq)]
pub struct EnvVar {
    pub name: String,
    pub value: String,
}

impl View for EnvVar {
    type V = (Seq<char>, Seq<char>);

    open spec fn view(&self) -> (Seq<char>, Seq<char>) {
        (self.name@, self.value@)
    }
}

/// What the surroundings of the launcher look like: which directories were
/// found next to the working directory and what the operator has set.
#[derive(Debug, PartialEq, Eq)]
pub struct LaunchContext {
    /// The directory of built static assets, where one was found.
    pub frontend_dist: Option<String>,
    /// The directory of the backend's sources, where one was found.
    pub src_dir: Option<String>,
    /// The interpreter named by the operator, where one was named.
    pub interpreter: Option<String>,
    /// The interpreter's module search path as it stands, where it is set.
    pub module_search_path: Option<String>,
    /// Whether path lists are separated as on Windows.
    pub windows: bool,
}

/// The mathematical content of a [`LaunchContext`].
pub struct LaunchContextView {
    pub frontend_dist: Option<Seq<char>>,
    pub src_dir: Option<Seq<char>>,
    pub interpreter: Option<Seq<char>>,
    pub module_search_path: Option<Seq<char>>,
    pub windows: bool,
}

/// The characters of an optional string.
pub open spec fn text_of(s: Option<String>) -> Option<Seq<char>> {
    match s {
        Some(s) => Some(s@),
        None => None,
    }
}

impl View for LaunchContext {
    type V = LaunchContextView;

    open spec fn view(&self) -> LaunchContextView {
        LaunchContextView {
            frontend_dist: text_of(self.frontend_dist),
            src_dir: text_of(self.src_dir),
            interpreter: text_of(self.interpreter),
            module_search_path: text_of(self.module_search_path),
            windows: self.windows,
        }
    }
}

/// One candidate launch method: the program, its arguments, the environment
/// variables to export to it, and whether its standard streams are discarded.
#[derive(Debug, PartialEq, Eq)]
pub struct SpawnStrategy {
    pub kind: StrategyKind,
    pub program: String,
    pub args: Vec<String>,
    pub env: Vec<EnvVar>,
    pub discard_stdio: bool,
}

/// The mathematical content of a [`SpawnStrategy`].
pub struct SpawnStrategyView {
    pub kind: StrategyKind,
    pub program: Seq<char>,
    pub args: Seq<Seq<char>>,
    pub env: Seq<(Seq<char>, Seq<char>)>,
    pub discard_stdio: bool,
}

/// The characters of each string of a list.
pub open spec fn texts(list: Seq<String>) -> Seq<Seq<char>> {
    list.map_values(|s: String| s@)
}

/// The name and value of each variable of a list.
pub open spec fn bindings(list: Seq<EnvVar>) -> Seq<(Seq<char>, Seq<char>)> {
    list.map_values(|e: EnvVar| e@)
}

impl View for SpawnStrategy {
    type V = SpawnStrategyView;

    open spec fn view(&self) -> SpawnStrategyView {
        SpawnStrategyView {
            kind: self.kind,
            program: self.program@,
            args: texts(self.args@),
            env: bindings(self.env@),
            discard_stdio: self.discard_stdio,
        }
    }
}

/// The separator of a path list: `;` on Windows, `:` elsewhere.
pub open spec fn path_separator(windows: bool) -> Seq<char> {
    if windows {
        ";"@
    } else {
        ":"@
    }
}

/// The module search path once `dir` is added to `existing`: `dir` alone
/// when nothing was set, else the old value, the separator and `dir`.
pub open spec fn joined_search_path(existing: Seq<char>, dir: Seq<char>, windows: bool) -> Seq<
    char,
> {
    if existing.len() == 0 {
        dir
    } else {
        existing + path_separator(windows) + dir
    }
}

/// The module search path that the context holds; empty when it is unset.
pub open spec fn existing_search_path(ctx: LaunchContextView) -> Seq<char> {
    match ctx.module_search_path {
        Some(p) => p,
        None => Seq::empty(),
    }
}

/// The export of the static assets directory, where one was found.
pub open spec fn frontend_dist_env(ctx: LaunchContextView) -> Seq<(Seq<char>, Seq<char>)> {
    match ctx.frontend_dist {
        Some(dir) => seq![(FRONTEND_DIST_VARIABLE@, dir)],
        None => seq![],
    }
}

/// The export of the extended module search path, where a source directory
/// was found.
pub open spec fn search_path_env(ctx: LaunchContextView) -> Seq<(Seq<char>, Seq<char>)> {
    match ctx.src_dir {
        Some(dir) => seq![
            (SEARCH_PATH_VARIABLE@, joined_search_path(existing_search_path(ctx), dir, ctx.windows)),
        ],
        None => seq![],
    }
}

/// The arguments of the interpreter: the backend as a module, bound to the
/// loopback interface on `port`.
pub open spec fn interpreter_args(port: u16) -> Seq<Seq<char>> {
    seq![
        "-X"@,
        "utf8"@,
        "-m"@,
        "uvicorn"@,
        "runicorn.viewer:create_app"@,
        "--factory"@,
        "--host"@,
        "127.0.0.1"@,
        "--port"@,
        decimal(port as nat),
    ]
}

/// The launch of the bundled executable on `port`.
pub open spec fn sidecar_launch(port: u16, ctx: LaunchContextView) -> SpawnStrategyView {
    SpawnStrategyView {
        kind: StrategyKind::Sidecar,
        program: SIDECAR_NAME@,
        args: seq!["--port"@, decimal(port as nat)],
        env: frontend_dist_env(ctx),
        discard_stdio: false,
    }
}

/// The launch of the backend through an interpreter on `port`.
pub open spec fn interpreter_launch(port: u16, ctx: LaunchContextView) -> SpawnStrategyView {
    SpawnStrategyView {
        kind: StrategyKind::Interpreter,
        program: match ctx.interpreter {
            Some(program) => program,
            None => DEFAULT_INTERPRETER@,
        },
        args: interpreter_args(port),
        env: search_path_env(ctx) + frontend_dist_env(ctx),
        discard_stdio: true,
    }
}

/// The strategy tried first.
pub open spec fn first_strategy() -> StrategyKind {
    StrategyKind::Sidecar
}

/// The strategy tried when `kind` has failed, if one is left.
pub open spec fn next_strategy(kind: StrategyKind) -> Option<StrategyKind> {
    match kind {
        StrategyKind::Sidecar => Some(StrategyKind::Interpreter),
        StrategyKind::Interpreter => None,
    }
}

/// Appends `arg` to `args`.
fn push_arg(args: &mut Vec<String>, arg: String)
    ensures
        texts(final(args)@) == texts(old(args)@).push(arg@),
{
    args.push(arg);
}

/// Appends the variable `name` with `value` to `env`.
fn push_env(env: &mut Vec<EnvVar>, name: &str, value: String)
    ensures
        bindings(final(env)@) == bindings(old(env)@).push((name@, value@)),
{
    env.push(EnvVar { name: String::from_str(name), value });
}

/// Appends the export of the static assets directory, where one was found.
fn push_frontend_dist(env: &mut Vec<EnvVar>, ctx: &LaunchContext)
    ensures
        bindings(final(env)@) == bindings(old(env)@) + frontend_dist_env(ctx@),
{
    match &ctx.frontend_dist {
        Some(dir) => {
            push_env(env, FRONTEND_DIST_VARIABLE, dir.clone());
        },
        None => {},
    }
}

/// Adds the directory `dir` to the module search path `existing`.
///
/// The old value is kept in front, followed by `;` on Windows and `:`
/// elsewhere; an empty old value leaves `dir` alone, without a separator.
pub fn module_search_path(existing: &str, dir: &str, windows: bool) -> (value: String)
    ensures
        value@ == joined_search_path(existing@, dir@, windows),
{
    let mut value = String::from_str(existing);
    if !existing.is_empty() {
        if windows {
            value.append(";");
        } else {
            value.append(":");
        }
    }
    value.append(dir);
    value
}

/// The strategy that launches the bundled executable on `port`.
///
/// The executable gets the port as `--port <port>`. The static assets
/// directory, where one was found, is exported so that the backend serves
/// the assets itself.
pub fn sidecar_strategy(port: u16, ctx: &LaunchContext) -> (strategy: SpawnStrategy)
    ensures
        strategy@ == sidecar_launch(port, ctx@),
{
    let mut args: Vec<String> = Vec::new();
    push_arg(&mut args, String::from_str("--port"));
    push_arg(&mut args, port_text(port));
    assert(texts(args@) =~= seq!["--port"@, decimal(port as nat)]);
    let mut env: Vec<EnvVar> = Vec::new();
    push_frontend_dist(&mut env, ctx);
    SpawnStrategy {
        kind: StrategyKind::Sidecar,
        program: String::from_str(SIDECAR_NAME),
        args,
        env,
        discard_stdio: false,
    }
}

/// The strategy that runs the backend through an interpreter on `port`.
///
/// The interpreter is the one the operator named, else `python`. Its
/// standard streams are discarded, so that it never blocks on a pipe that
/// nobody reads. Where a source directory was found it is added to the
/// module search path behind the value already set; the static assets
/// directory is exported as for the bundled executable.
pub fn interpreter_strategy(port: u16, ctx: &LaunchContext) -> (strategy: SpawnStrategy)
    ensures
        strategy@ == interpreter_launch(port, ctx@),
{
    let program = match &ctx.interpreter {
        Some(program) => program.clone(),
        None => String::from_str(DEFAULT_INTERPRETER),
    };
    let mut args: Vec<String> = Vec::new();
    push_arg(&mut args, String::from_str("-X"));
    push_arg(&mut args, String::from_str("utf8"));
    push_arg(&mut args, String::from_str("-m"));
    push_arg(&mut args, String::from_str("uvicorn"));
    push_arg(&mut args, String::from_str("runicorn.viewer:create_app"));
    push_arg(&mut args, String::from_str("--factory"));
    push_arg(&mut args, String::from_str("--host"));
    push_arg(&mut args, String::from_str("127.0.0.1"));
    push_arg(&mut args, String::from_str("--port"));
    push_arg(&mut args, port_text(port));
    assert(texts(args@) =~= interpreter_args(port));
    let mut env: Vec<EnvVar> = Vec::new();
    match &ctx.src_dir {
        Some(dir) => {
            let value = match &ctx.module_search_path {
                Some(existing) => module_search_path(existing.as_str(), dir.as_str(), ctx.windows),
                None => {
                    proof {
                        reveal_strlit("");
                    }
                    module_search_path("", dir.as_str(), ctx.windows)
                },
            };
            push_env(&mut env, SEARCH_PATH_VARIABLE, value);
        },
        None => {},
    }
    assert(bindings(env@) =~= search_path_env(ctx@));
    push_frontend_dist(&mut env, ctx);
    SpawnStrategy { kind: StrategyKind::Interpreter, program, args, env, discard_stdio: true }
}

/// The process that runs the backend, tagged by the strategy that launched
/// it. `S` is the handle of a bundled executable, `P` that of an interpreter.
#[derive(Debug, PartialEq, Eq)]
pub enum BackendChild<S, P> {
    Sidecar(S),
    Python(P),
}

/// What a launch attempt reported: the handle of the live process, or
/// nothing when the program was not found or did not start.
#[derive(Debug, PartialEq, Eq)]
pub enum SpawnOutcome<S, P> {
    Sidecar(Option<S>),
    Interpreter(Option<P>),
}

/// How the launch goes on after an attempt.
#[derive(Debug, PartialEq, Eq)]
pub enum SpawnStep<S, P> {
    /// Attempt this strategy next.
    Try(StrategyKind),
    /// The backend runs. It has not been waited for: it may not be ready.
    Running(BackendChild<S, P>),
    /// No strategy is left. The launch has failed and is not retried.
    Failed,
}

/// The step that follows the attempt of `tried` with the given outcome.
pub open spec fn spawn_step<S, P>(tried: StrategyKind, outcome: SpawnOutcome<S, P>) -> SpawnStep<
    S,
    P,
> {
    match outcome {
        SpawnOutcome::Sidecar(Some(child)) => SpawnStep::Running(BackendChild::Sidecar(child)),
        SpawnOutcome::Interpreter(Some(child)) => SpawnStep::Running(BackendChild::Python(child)),
        _ => match next_strategy(tried) {
            Some(kind) => SpawnStep::Try(kind),
            None => SpawnStep::Failed,
        },
    }
}

/// The strategy with which every launch begins.
pub fn first_attempt() -> (kind: StrategyKind)
    ensures
        kind == first_strategy(),
{
    StrategyKind::Sidecar
}

/// Decides how the launch goes on after the attempt of `tried`.
///
/// A live handle ends the launch at once and is handed on under the tag of
/// its strategy. After a failure the next strategy in order is tried; when
/// none is left the launch fails.
pub fn spawn_backend<S, P>(tried: StrategyKind, outcome: SpawnOutcome<S, P>) -> (step: SpawnStep<
    S,
    P,
>)
    ensures
        step == spawn_step(tried, outcome),
{
    match outcome {
        SpawnOutcome::Sidecar(Some(child)) => SpawnStep::Running(BackendChild::Sidecar(child)),
        SpawnOutcome::Interpreter(Some(child)) => SpawnStep::Running(BackendChild::Python(child)),
        _ => match tried {
            StrategyKind::Sidecar => SpawnStep::Try(StrategyKind::Interpreter),
            StrategyKind::Interpreter => SpawnStep::Failed,
        },
    }
}

/// When the bundled executable cannot be launched, the interpreter is tried
/// next, and where a source directory was found its module search path holds
/// the value set before, then the separator of the platform, then that
/// directory; with nothing set before it holds the directory alone.
pub proof fn lemma_fallback_extends_search_path<S, P>(
    port: u16,
    ctx: LaunchContextView,
    dir: Seq<char>,
)
    requires
        ctx.src_dir == Some(dir),
    ensures
        spawn_step::<S, P>(StrategyKind::Sidecar, SpawnOutcome::Sidecar(None)) == SpawnStep::<
            S,
            P,
        >::Try(StrategyKind::Interpreter),
        interpreter_launch(port, ctx).env.len() >= 1,
        interpreter_launch(port, ctx).env[0].0 == SEARCH_PATH_VARIABLE@,
        existing_search_path(ctx).len() == 0 ==> interpreter_launch(port, ctx).env[0].1 == dir,
        existing_search_path(ctx).len() > 0 ==> interpreter_launch(port, ctx).env[0].1
            == existing_search_path(ctx) + path_separator(ctx.windows) + dir,
{
}

} // verus!
