use backend_supervisor::spawn::{
    first_attempt, interpreter_strategy, module_search_path, sidecar_strategy, spawn_backend,
    BackendChild, EnvVar, LaunchContext, SpawnOutcome, SpawnStep, SpawnStrategy, StrategyKind,
    DEFAULT_INTERPRETER, FRONTEND_DIST_VARIABLE, INTERPRETER_VARIABLE, SEARCH_PATH_VARIABLE,
    SIDECAR_NAME,
};

fn bare_context() -> LaunchContext {
    LaunchContext {
        frontend_dist: None,
        src_dir: None,
        interpreter: None,
        module_search_path: None,
        windows: false,
    }
}

fn strings(items: &[&str]) -> Vec<String> {
    items.iter().map(|s| s.to_string()).collect()
}

fn var(name: &str, value: &str) -> EnvVar {
    EnvVar { name: name.to_string(), value: value.to_string() }
}

#[test]
fn names_are_fixed() {
    assert_eq!(SIDECAR_NAME, "runicorn-viewer");
    assert_eq!(FRONTEND_DIST_VARIABLE, "RUNICORN_FRONTEND_DIST");
    assert_eq!(INTERPRETER_VARIABLE, "RUNICORN_DESKTOP_PY");
    assert_eq!(SEARCH_PATH_VARIABLE, "PYTHONPATH");
    assert_eq!(DEFAULT_INTERPRETER, "python");
}

#[test]
fn search_path_with_nothing_set_is_the_directory_alone() {
    assert_eq!(module_search_path("", "/repo/src", false), "/repo/src");
    assert_eq!(module_search_path("", "C:\\repo\\src", true), "C:\\repo\\src");
}

#[test]
fn search_path_keeps_the_old_value_in_front() {
    assert_eq!(module_search_path("/opt/lib", "/repo/src", false), "/opt/lib:/repo/src");
    assert_eq!(module_search_path("/a:/b", "/repo/src", false), "/a:/b:/repo/src");
}

#[test]
fn search_path_is_separated_by_semicolon_on_windows() {
    assert_eq!(module_search_path("C:\\lib", "C:\\repo\\src", true), "C:\\lib;C:\\repo\\src");
}

#[test]
fn search_path_with_an_empty_directory() {
    assert_eq!(module_search_path("/opt/lib", "", false), "/opt/lib:");
    assert_eq!(module_search_path("", "", true), "");
}

#[test]
fn sidecar_strategy_passes_the_port() {
    let strategy = sidecar_strategy(8000, &bare_context());
    assert_eq!(
        strategy,
        SpawnStrategy {
            kind: StrategyKind::Sidecar,
            program: "runicorn-viewer".to_string(),
            args: strings(&["--port", "8000"]),
            env: vec![],
            discard_stdio: false,
        }
    );
}

#[test]
fn sidecar_strategy_exports_the_static_assets() {
    let ctx = LaunchContext {
        frontend_dist: Some("/repo/web/frontend/dist".to_string()),
        src_dir: Some("/repo/src".to_string()),
        interpreter: Some("python3".to_string()),
        module_search_path: Some("/opt/lib".to_string()),
        windows: false,
    };
    let strategy = sidecar_strategy(49152, &ctx);
    assert_eq!(strategy.program, "runicorn-viewer");
    assert_eq!(strategy.args, strings(&["--port", "49152"]));
    assert_eq!(strategy.env, vec![var("RUNICORN_FRONTEND_DIST", "/repo/web/frontend/dist")]);
    assert!(!strategy.discard_stdio);
}

#[test]
fn interpreter_strategy_with_nothing_found() {
    let strategy = interpreter_strategy(8000, &bare_context());
    assert_eq!(
        strategy,
        SpawnStrategy {
            kind: StrategyKind::Interpreter,
            program: "python".to_string(),
            args: strings(&[
                "-X",
                "utf8",
                "-m",
                "uvicorn",
                "runicorn.viewer:create_app",
                "--factory",
                "--host",
                "127.0.0.1",
                "--port",
                "8000",
            ]),
            env: vec![],
            discard_stdio: true,
        }
    );
}

#[test]
fn interpreter_strategy_uses_the_named_interpreter() {
    let mut ctx = bare_context();
    ctx.interpreter = Some("/usr/bin/python3.12".to_string());
    assert_eq!(interpreter_strategy(8000, &ctx).program, "/usr/bin/python3.12");
    ctx.interpreter = Some(String::new());
    assert_eq!(interpreter_strategy(8000, &ctx).program, "");
}

#[test]
fn interpreter_strategy_extends_the_search_path() {
    let mut ctx = bare_context();
    ctx.src_dir = Some("/repo/src".to_string());
    ctx.module_search_path = Some("/opt/lib".to_string());
    let strategy = interpreter_strategy(65535, &ctx);
    assert_eq!(strategy.env, vec![var("PYTHONPATH", "/opt/lib:/repo/src")]);
    assert_eq!(strategy.args[9], "65535");
}

#[test]
fn interpreter_strategy_extends_the_search_path_on_windows() {
    let mut ctx = bare_context();
    ctx.src_dir = Some("C:\\repo\\src".to_string());
    ctx.module_search_path = Some("C:\\lib".to_string());
    ctx.windows = true;
    let strategy = interpreter_strategy(8000, &ctx);
    assert_eq!(strategy.env, vec![var("PYTHONPATH", "C:\\lib;C:\\repo\\src")]);
}

#[test]
fn interpreter_strategy_with_unset_or_empty_search_path() {
    let mut ctx = bare_context();
    ctx.src_dir = Some("/repo/src".to_string());
    assert_eq!(interpreter_strategy(8000, &ctx).env, vec![var("PYTHONPATH", "/repo/src")]);
    ctx.module_search_path = Some(String::new());
    assert_eq!(interpreter_strategy(8000, &ctx).env, vec![var("PYTHONPATH", "/repo/src")]);
}

#[test]
fn interpreter_strategy_leaves_the_search_path_alone_without_sources() {
    let mut ctx = bare_context();
    ctx.module_search_path = Some("/opt/lib".to_string());
    assert_eq!(interpreter_strategy(8000, &ctx).env, vec![]);
}

#[test]
fn interpreter_strategy_exports_search_path_then_static_assets() {
    let ctx = LaunchContext {
        frontend_dist: Some("/repo/web/frontend/dist".to_string()),
        src_dir: Some("/repo/src".to_string()),
        interpreter: None,
        module_search_path: None,
        windows: false,
    };
    assert_eq!(
        interpreter_strategy(8000, &ctx).env,
        vec![
            var("PYTHONPATH", "/repo/src"),
            var("RUNICORN_FRONTEND_DIST", "/repo/web/frontend/dist"),
        ]
    );
}

#[test]
fn launch_begins_with_the_sidecar() {
    assert_eq!(first_attempt(), StrategyKind::Sidecar);
}

#[test]
fn live_sidecar_ends_the_launch() {
    let step: SpawnStep<u32, u64> =
        spawn_backend(StrategyKind::Sidecar, SpawnOutcome::Sidecar(Some(11)));
    assert_eq!(step, SpawnStep::Running(BackendChild::Sidecar(11)));
}

#[test]
fn failed_sidecar_falls_back_to_the_interpreter() {
    let step: SpawnStep<u32, u64> =
        spawn_backend(StrategyKind::Sidecar, SpawnOutcome::Sidecar(None));
    assert_eq!(step, SpawnStep::Try(StrategyKind::Interpreter));
}

#[test]
fn live_interpreter_ends_the_launch() {
    let step: SpawnStep<u32, u64> =
        spawn_backend(StrategyKind::Interpreter, SpawnOutcome::Interpreter(Some(22)));
    assert_eq!(step, SpawnStep::Running(BackendChild::Python(22)));
}

#[test]
fn failed_interpreter_fails_the_launch() {
    let step: SpawnStep<u32, u64> =
        spawn_backend(StrategyKind::Interpreter, SpawnOutcome::Interpreter(None));
    assert_eq!(step, SpawnStep::Failed);
}

#[test]
fn live_process_is_tagged_by_its_own_kind() {
    let step: SpawnStep<u32, u64> =
        spawn_backend(StrategyKind::Sidecar, SpawnOutcome::Interpreter(Some(22)));
    assert_eq!(step, SpawnStep::Running(BackendChild::Python(22)));
    let step: SpawnStep<u32, u64> =
        spawn_backend(StrategyKind::Interpreter, SpawnOutcome::Sidecar(Some(11)));
    assert_eq!(step, SpawnStep::Running(BackendChild::Sidecar(11)));
}

#[test]
fn fallback_launch_carries_the_extended_search_path() {
    let ctx = LaunchContext {
        frontend_dist: None,
        src_dir: Some("/repo/src".to_string()),
        interpreter: None,
        module_search_path: Some("/site".to_string()),
        windows: false,
    };
    let step: SpawnStep<u32, u64> = spawn_backend(first_attempt(), SpawnOutcome::Sidecar(None));
    match step {
        SpawnStep::Try(StrategyKind::Interpreter) => {
            let strategy = interpreter_strategy(8000, &ctx);
            assert_eq!(strategy.env[0], var("PYTHONPATH", "/site:/repo/src"));
        }
        other => panic!("no fallback: {:?}", other),
    }
}
