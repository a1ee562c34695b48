use sidecar::command::{CommandLine, ExitStatus, Invocation, OutputPolicy};
use sidecar::dashboard::deployment;
use sidecar::deployment::{BuildStep, Deployment};
use sidecar::effect::{Action, Report};
use sidecar::env::Environment;
use sidecar::locator::SearchContext;
use sidecar::orchestrator::{invoke, locate, Orchestrator, Stage, Step};
use sidecar::outcome::{Failure, OrchestrationOutcome, ProvisionStep, ProvisionWarning};
use sidecar::path::FsPath;
use sidecar::supervisor::Termination;

/// A host that exists only in memory.
struct Host {
    existing: Vec<String>,
    generate: Result<ExitStatus, String>,
    init: Result<ExitStatus, String>,
    build: Result<ExitStatus, String>,
    create_dir: Result<(), String>,
    spawn: Result<u32, String>,
    env: Vec<(String, String)>,
    log: Vec<String>,
    slept: u64,
}

fn host(existing: &[&str]) -> Host {
    Host {
        existing: existing.iter().map(|path| path.to_string()).collect(),
        generate: Ok(ExitStatus::from_code(0)),
        init: Ok(ExitStatus::from_code(0)),
        build: Ok(ExitStatus::from_code(0)),
        create_dir: Ok(()),
        spawn: Ok(4242),
        env: Vec::new(),
        log: Vec::new(),
        slept: 0,
    }
}

fn command_text(invocation: &Invocation) -> String {
    let mut text = invocation.command.program.clone();
    for arg in &invocation.command.args {
        text.push(' ');
        text.push_str(arg);
    }
    text
}

fn command_report(result: &Result<ExitStatus, String>) -> Report<u32> {
    match result {
        Ok(status) => Report::Exited(*status),
        Err(cause) => Report::Failed(cause.clone()),
    }
}

impl Host {
    fn perform(&mut self, action: &Action) -> Option<Report<u32>> {
        match action {
            Action::Probe(path) => {
                let text = path.render();
                self.log.push(format!("probe {}", text));
                Some(Report::Exists(self.existing.contains(&text)))
            }
            Action::SetEnv(var) => {
                self.log.push(format!("setenv {}={}", var.name, var.value));
                self.env.push((var.name.clone(), var.value.clone()));
                Some(Report::Completed)
            }
            Action::CreateDirAll(path) => {
                let text = path.render();
                self.log.push(format!("mkdir {}", text));
                match &self.create_dir {
                    Ok(()) => {
                        self.existing.push(text);
                        Some(Report::Completed)
                    }
                    Err(cause) => Some(Report::Failed(cause.clone())),
                }
            }
            Action::Run(invocation) => {
                let text = command_text(invocation);
                self.log.push(format!("run {} in {}", text, invocation.cwd.render()));
                let result = if text.ends_with("generate") {
                    &self.generate
                } else if text.ends_with("push") {
                    &self.init
                } else {
                    &self.build
                };
                Some(command_report(result))
            }
            Action::Spawn(invocation) => {
                let text = command_text(invocation);
                self.log.push(format!("spawn {} in {}", text, invocation.cwd.render()));
                match &self.spawn {
                    Ok(pid) => Some(Report::Spawned(*pid)),
                    Err(cause) => Some(Report::Failed(cause.clone())),
                }
            }
            Action::Sleep(seconds) => {
                self.log.push(format!("sleep {}", seconds));
                self.slept += *seconds;
                Some(Report::Completed)
            }
            Action::Finish(_) => None,
        }
    }

    fn run(&mut self, orchestrator: &mut Orchestrator<u32>) -> OrchestrationOutcome {
        for _ in 0..100 {
            let action = orchestrator.next_action();
            match self.perform(&action) {
                Some(report) => assert!(orchestrator.handle(report)),
                None => break,
            }
        }
        orchestrator.outcome().expect("the cycle ends")
    }
}

fn context(hint: Option<&str>, executable: Option<&str>, working_dir: Option<&str>) -> SearchContext {
    SearchContext {
        bundled_hint: hint.map(FsPath::parse),
        executable: executable.map(FsPath::parse),
        working_dir: working_dir.map(FsPath::parse),
    }
}

fn store_deployment() -> Deployment {
    Deployment {
        manifest: "package.json".to_string(),
        resource: FsPath::parse("data/store.db"),
        connection_var: "STORE_URL".to_string(),
        connection_scheme: "file:".to_string(),
        schema_generate: None,
        schema_init: CommandLine::new("tool").arg("schema").arg("push"),
        build: None,
        server: CommandLine::new("server").arg("start"),
        spawn_overrides: Environment::new(),
        warm_up_secs: 3,
        description: "store server".to_string(),
    }
}

fn with_build(mut settings: Deployment, output: OutputPolicy) -> Deployment {
    settings.build = Some(BuildStep { command: CommandLine::new("tool").arg("build"), output });
    settings
}

#[test]
fn dashboard_cycle_from_a_development_tree() {
    let mut host = host(&["/app/package.json"]);
    let context = context(None, Some("/app/src-tauri/target/debug/shell"), Some("/app/src-tauri"));
    let mut orchestrator: Orchestrator<u32> = Orchestrator::new(deployment(), &context);
    let outcome = host.run(&mut orchestrator);
    assert_eq!(outcome, OrchestrationOutcome::Success("http://localhost:3005".to_string()));
    assert_eq!(
        host.log,
        vec![
            "probe /app/src-tauri/target/debug/package.json",
            "probe /app/src-tauri/target/package.json",
            "probe /app/src-tauri/package.json",
            "probe /app/package.json",
            "setenv DATABASE_URL=file:/app/prisma/competitor_products.db",
            "probe /app/prisma",
            "mkdir /app/prisma",
            "run npx prisma generate in /app",
            "probe /app/prisma/competitor_products.db",
            "run npx prisma db push in /app",
            "spawn pnpm run server:dev in /app",
            "sleep 5",
        ]
    );
    assert!(orchestrator.is_running());
    assert!(orchestrator.warnings().is_empty());
    assert_eq!(orchestrator.terminate(), Termination::Terminated(4242));
}

#[test]
fn dashboard_cycle_with_existing_database_skips_creation_and_push() {
    let mut host = host(&[
        "/bundle/package.json",
        "/bundle/prisma",
        "/bundle/prisma/competitor_products.db",
    ]);
    let context = context(Some("/bundle"), Some("/usr/bin/shell"), None);
    let mut orchestrator: Orchestrator<u32> = Orchestrator::new(deployment(), &context);
    let outcome = host.run(&mut orchestrator);
    assert_eq!(outcome, OrchestrationOutcome::Success("http://localhost:3005".to_string()));
    assert_eq!(
        host.log,
        vec![
            "probe /bundle/package.json",
            "setenv DATABASE_URL=file:/bundle/prisma/competitor_products.db",
            "probe /bundle/prisma",
            "run npx prisma generate in /bundle",
            "probe /bundle/prisma/competitor_products.db",
            "spawn pnpm run server:dev in /bundle",
            "sleep 5",
        ]
    );
}

#[test]
fn cycle_walks_from_bin_to_app() {
    let mut host = host(&["/app/package.json"]);
    let context = context(None, Some("/app/bin/shell"), None);
    let mut orchestrator: Orchestrator<u32> = Orchestrator::new(store_deployment(), &context);
    assert_eq!(orchestrator.next_action().render_probe(), Some("/app/bin/package.json".to_string()));
    assert!(orchestrator.handle(Report::Exists(false)));
    assert_eq!(orchestrator.next_action().render_probe(), Some("/app/package.json".to_string()));
    assert!(orchestrator.handle(Report::Exists(true)));
    assert_eq!(orchestrator.root(), Some(FsPath::parse("/app")));
    assert_eq!(
        orchestrator.stage(),
        Stage::Working { step: Step::ExportConnection, root: FsPath::parse("/app") }
    );
    let outcome = host.run(&mut orchestrator);
    assert_eq!(outcome, OrchestrationOutcome::Success("store server".to_string()));
}

trait ProbeText {
    fn render_probe(&self) -> Option<String>;
}

impl ProbeText for Action {
    fn render_probe(&self) -> Option<String> {
        match self {
            Action::Probe(path) => Some(path.render()),
            _ => None,
        }
    }
}

#[test]
fn hint_with_manifest_needs_one_probe() {
    let mut host = host(&["/opt/bundle/package.json", "/opt/bundle/data", "/opt/bundle/data/store.db"]);
    let context = context(Some("/opt/bundle"), None, None);
    let mut orchestrator: Orchestrator<u32> = Orchestrator::new(store_deployment(), &context);
    let outcome = host.run(&mut orchestrator);
    assert_eq!(outcome, OrchestrationOutcome::Success("store server".to_string()));
    let probes: Vec<&String> =
        host.log.iter().filter(|line| line.ends_with("package.json")).collect();
    assert_eq!(probes, vec!["probe /opt/bundle/package.json"]);
}

#[test]
fn directory_not_found_ends_the_cycle() {
    let mut host = host(&[]);
    let context = context(Some("/opt/bundle"), Some("/app/bin/shell"), Some("/home/me"));
    let mut orchestrator: Orchestrator<u32> = Orchestrator::new(store_deployment(), &context);
    let outcome = host.run(&mut orchestrator);
    assert_eq!(outcome, OrchestrationOutcome::DirectoryNotFound);
    assert_eq!(
        host.log,
        vec![
            "probe /opt/bundle/package.json",
            "probe /app/bin/package.json",
            "probe /app/package.json",
            "probe /package.json",
            "probe /package.json",
            "probe /package.json",
            "probe /home/me/package.json",
        ]
    );
    assert!(!orchestrator.is_running());
    assert_eq!(orchestrator.root(), None);
}

#[test]
fn nothing_to_search_is_directory_not_found_at_once() {
    let context = context(None, None, Some("/home/me"));
    let orchestrator: Orchestrator<u32> = Orchestrator::new(store_deployment(), &context);
    assert_eq!(orchestrator.outcome(), Some(OrchestrationOutcome::DirectoryNotFound));
    match orchestrator.next_action() {
        Action::Finish(outcome) => assert_eq!(outcome, OrchestrationOutcome::DirectoryNotFound),
        other => panic!("unexpected action {:?}", other),
    }
}

#[test]
fn absent_resource_creates_directory_and_runs_schema_init() {
    let mut host = host(&["/app/package.json"]);
    let context = context(Some("/app"), None, None);
    let mut orchestrator: Orchestrator<u32> = Orchestrator::new(store_deployment(), &context);
    let outcome = host.run(&mut orchestrator);
    assert_eq!(outcome, OrchestrationOutcome::Success("store server".to_string()));
    assert_eq!(
        host.log,
        vec![
            "probe /app/package.json",
            "setenv STORE_URL=file:/app/data/store.db",
            "probe /app/data",
            "mkdir /app/data",
            "probe /app/data/store.db",
            "run tool schema push in /app",
            "spawn server start in /app",
            "sleep 3",
        ]
    );
    assert!(host.existing.contains(&"/app/data".to_string()));
    assert_eq!(host.env, vec![("STORE_URL".to_string(), "file:/app/data/store.db".to_string())]);
}

#[test]
fn parent_directory_exists_whatever_schema_init_returns() {
    for init in [
        Ok(ExitStatus::from_code(0)),
        Ok(ExitStatus::from_code(1)),
        Ok(ExitStatus { code: None }),
        Err("tool not found".to_string()),
    ] {
        let mut host = host(&["/app/package.json"]);
        host.init = init.clone();
        let context = context(Some("/app"), None, None);
        let mut orchestrator: Orchestrator<u32> = Orchestrator::new(store_deployment(), &context);
        let outcome = host.run(&mut orchestrator);
        assert_eq!(outcome, OrchestrationOutcome::Success("store server".to_string()));
        assert!(host.existing.contains(&"/app/data".to_string()));
        let mkdir = host.log.iter().position(|line| line == "mkdir /app/data").expect("created");
        let push =
            host.log.iter().position(|line| line == "run tool schema push in /app").expect("ran");
        assert!(mkdir < push);
        let expected: Vec<ProvisionWarning> = match init {
            Ok(status) if status.code == Some(0) => Vec::new(),
            Ok(status) => vec![ProvisionWarning {
                step: ProvisionStep::InitSchema,
                failure: Failure::Exit(status),
            }],
            Err(cause) => vec![ProvisionWarning {
                step: ProvisionStep::InitSchema,
                failure: Failure::Io(cause),
            }],
        };
        assert_eq!(orchestrator.warnings(), expected);
    }
}

#[test]
fn provisioning_failures_are_warnings_and_the_cycle_goes_on() {
    let mut host = host(&["/app/package.json"]);
    host.create_dir = Err("permission denied".to_string());
    host.generate = Ok(ExitStatus::from_code(2));
    host.init = Err("npx not found".to_string());
    let context = context(Some("/app"), None, None);
    let mut orchestrator: Orchestrator<u32> = Orchestrator::new(deployment(), &context);
    let outcome = host.run(&mut orchestrator);
    assert_eq!(outcome, OrchestrationOutcome::Success("http://localhost:3005".to_string()));
    assert_eq!(
        orchestrator.warnings(),
        vec![
            ProvisionWarning {
                step: ProvisionStep::CreateResourceDir,
                failure: Failure::Io("permission denied".to_string()),
            },
            ProvisionWarning {
                step: ProvisionStep::GenerateSchema,
                failure: Failure::Exit(ExitStatus { code: Some(2) }),
            },
            ProvisionWarning {
                step: ProvisionStep::InitSchema,
                failure: Failure::Io("npx not found".to_string()),
            },
        ]
    );
    assert!(host.log.contains(&"spawn pnpm run server:dev in /app".to_string()));
}

#[test]
fn build_exit_status_one_is_build_failed_without_spawn() {
    let mut host = host(&["/app/package.json", "/app/data", "/app/data/store.db"]);
    host.build = Ok(ExitStatus::from_code(1));
    let context = context(Some("/app"), None, None);
    let settings = with_build(store_deployment(), OutputPolicy::Inherited);
    let mut orchestrator: Orchestrator<u32> = Orchestrator::new(settings, &context);
    let outcome = host.run(&mut orchestrator);
    assert_eq!(outcome, OrchestrationOutcome::BuildFailed(ExitStatus { code: Some(1) }));
    assert_eq!(
        host.log,
        vec![
            "probe /app/package.json",
            "setenv STORE_URL=file:/app/data/store.db",
            "probe /app/data",
            "probe /app/data/store.db",
            "run tool build in /app",
        ]
    );
    assert!(host.log.iter().all(|line| !line.starts_with("spawn")));
    assert!(!orchestrator.is_running());
    assert_eq!(orchestrator.terminate(), Termination::NoProcessRunning);
}

#[test]
fn failed_build_stays_failed_whatever_is_reported() {
    let context = context(Some("/app"), None, None);
    let settings = with_build(store_deployment(), OutputPolicy::Piped);
    let mut orchestrator: Orchestrator<u32> = Orchestrator::new(settings, &context);
    assert!(orchestrator.handle(Report::Exists(true)));
    assert!(orchestrator.handle(Report::Completed));
    assert!(orchestrator.handle(Report::Exists(true)));
    assert!(orchestrator.handle(Report::Exists(true)));
    assert!(orchestrator.handle(Report::Exited(ExitStatus::from_code(1))));
    let failed = OrchestrationOutcome::BuildFailed(ExitStatus { code: Some(1) });
    assert_eq!(orchestrator.outcome(), Some(failed.clone()));
    assert!(!orchestrator.handle(Report::Spawned(99)));
    assert!(!orchestrator.handle(Report::Completed));
    assert!(!orchestrator.handle(Report::Exited(ExitStatus::from_code(0))));
    assert!(!orchestrator.handle(Report::Exists(true)));
    assert!(!orchestrator.handle(Report::Failed("late".to_string())));
    assert_eq!(orchestrator.outcome(), Some(failed));
    assert!(!orchestrator.is_running());
    assert!(matches!(orchestrator.next_action(), Action::Finish(_)));
}

#[test]
fn build_that_cannot_be_launched_is_spawn_failed() {
    let mut host = host(&["/app/package.json", "/app/data", "/app/data/store.db"]);
    host.build = Err("tool: command not found".to_string());
    let context = context(Some("/app"), None, None);
    let settings = with_build(store_deployment(), OutputPolicy::Piped);
    let mut orchestrator: Orchestrator<u32> = Orchestrator::new(settings, &context);
    let outcome = host.run(&mut orchestrator);
    assert_eq!(outcome, OrchestrationOutcome::SpawnFailed("tool: command not found".to_string()));
    assert!(host.log.iter().all(|line| !line.starts_with("spawn")));
    assert!(!orchestrator.is_running());
}

#[test]
fn successful_build_is_followed_by_the_start() {
    let mut host = host(&["/app/package.json", "/app/data", "/app/data/store.db"]);
    let context = context(Some("/app"), None, None);
    let settings = with_build(store_deployment(), OutputPolicy::Inherited);
    let mut orchestrator: Orchestrator<u32> = Orchestrator::new(settings, &context);
    let outcome = host.run(&mut orchestrator);
    assert_eq!(outcome, OrchestrationOutcome::Success("store server".to_string()));
    let build = host.log.iter().position(|line| line == "run tool build in /app").expect("built");
    let spawn =
        host.log.iter().position(|line| line == "spawn server start in /app").expect("started");
    assert!(build < spawn);
}

#[test]
fn build_runs_with_the_output_policy_of_the_deployment() {
    for output in [OutputPolicy::Piped, OutputPolicy::Inherited] {
        let settings = with_build(store_deployment(), output);
        match settings.step_action(Step::Build, &FsPath::parse("/app")) {
            Action::Run(invocation) => {
                assert_eq!(invocation.output, output);
                assert_eq!(invocation.command, CommandLine::new("tool").arg("build"));
                assert_eq!(invocation.cwd, FsPath::parse("/app"));
                assert!(invocation.env.vars.is_empty());
            }
            other => panic!("unexpected action {:?}", other),
        }
    }
}

#[test]
fn spawn_failure_ends_the_cycle() {
    let mut host = host(&["/app/package.json"]);
    host.spawn = Err("pnpm: command not found".to_string());
    let context = context(Some("/app"), None, None);
    let mut orchestrator: Orchestrator<u32> = Orchestrator::new(deployment(), &context);
    let outcome = host.run(&mut orchestrator);
    assert_eq!(outcome, OrchestrationOutcome::SpawnFailed("pnpm: command not found".to_string()));
    assert!(!orchestrator.is_running());
    assert_eq!(host.slept, 0);
}

#[test]
fn server_is_started_with_provisioned_environment_and_overrides() {
    let mut settings = store_deployment();
    settings.spawn_overrides.set("HOST".to_string(), "0.0.0.0".to_string());
    settings.spawn_overrides.set("STORE_URL".to_string(), "file:/elsewhere.db".to_string());
    match settings.step_action(Step::Launch, &FsPath::parse("/app")) {
        Action::Spawn(invocation) => {
            assert_eq!(invocation.command, CommandLine::new("server").arg("start"));
            assert_eq!(invocation.cwd, FsPath::parse("/app"));
            assert_eq!(invocation.output, OutputPolicy::Piped);
            assert_eq!(invocation.env.get("HOST"), Some("0.0.0.0".to_string()));
            assert_eq!(invocation.env.get("STORE_URL"), Some("file:/elsewhere.db".to_string()));
            assert_eq!(invocation.env.get("PATH"), None);
        }
        other => panic!("unexpected action {:?}", other),
    }
    let plain = store_deployment();
    match plain.step_action(Step::Launch, &FsPath::parse("/app")) {
        Action::Spawn(invocation) => {
            assert_eq!(invocation.env.get("STORE_URL"), Some("file:/app/data/store.db".to_string()));
            assert_eq!(invocation.env.get("HOST"), None);
        }
        other => panic!("unexpected action {:?}", other),
    }
}

#[test]
fn report_that_does_not_answer_is_ignored() {
    let context = context(Some("/app"), None, None);
    let mut orchestrator: Orchestrator<u32> = Orchestrator::new(store_deployment(), &context);
    let before = orchestrator.stage();
    assert!(!orchestrator.handle(Report::Completed));
    assert!(!orchestrator.handle(Report::Spawned(5)));
    assert!(!orchestrator.handle(Report::Exited(ExitStatus::from_code(0))));
    assert!(!orchestrator.handle(Report::Failed("no".to_string())));
    assert_eq!(orchestrator.stage(), before);
    assert!(!orchestrator.is_running());
    assert!(orchestrator.handle(Report::Exists(true)));
    assert!(!orchestrator.handle(Report::Exists(true)));
    assert!(orchestrator.handle(Report::Completed));
}

#[test]
fn terminate_before_any_spawn_is_a_no_op() {
    let context = context(Some("/app"), None, None);
    let mut orchestrator: Orchestrator<u32> = Orchestrator::new(store_deployment(), &context);
    let before = orchestrator.stage();
    assert_eq!(orchestrator.terminate(), Termination::NoProcessRunning);
    assert_eq!(orchestrator.stage(), before);
    assert!(!orchestrator.is_running());
}

#[test]
fn spawn_then_terminate_hands_the_handle_over_once() {
    let mut host = host(&["/app/package.json"]);
    let context = context(Some("/app"), None, None);
    let mut orchestrator: Orchestrator<u32> = Orchestrator::new(store_deployment(), &context);
    loop {
        let action = orchestrator.next_action();
        let spawning = matches!(action, Action::Spawn(_));
        let report = host.perform(&action).expect("the cycle has not ended");
        assert!(orchestrator.handle(report));
        if spawning {
            break;
        }
    }
    assert!(orchestrator.is_running());
    assert_eq!(orchestrator.terminate(), Termination::Terminated(4242));
    assert!(!orchestrator.is_running());
    assert_eq!(orchestrator.terminate(), Termination::NoProcessRunning);
    assert!(!orchestrator.is_running());
    assert!(matches!(orchestrator.next_action(), Action::Sleep(3)));
}

#[test]
fn terminate_during_the_start_misses_the_server() {
    let mut host = host(&["/app/package.json"]);
    let context = context(Some("/app"), None, None);
    let mut orchestrator: Orchestrator<u32> = Orchestrator::new(store_deployment(), &context);
    loop {
        let action = orchestrator.next_action();
        if matches!(action, Action::Spawn(_)) {
            break;
        }
        let report = host.perform(&action).expect("the cycle has not ended");
        assert!(orchestrator.handle(report));
    }
    assert_eq!(orchestrator.terminate(), Termination::NoProcessRunning);
    assert!(orchestrator.handle(Report::Spawned(77)));
    assert!(orchestrator.is_running());
    assert_eq!(orchestrator.terminate(), Termination::Terminated(77));
}

#[test]
fn resource_at_the_root_needs_no_directory() {
    let mut settings = store_deployment();
    settings.resource = FsPath::parse("/");
    let mut host = host(&["/app/package.json"]);
    let context = context(Some("/app"), None, None);
    let mut orchestrator: Orchestrator<u32> = Orchestrator::new(settings, &context);
    let outcome = host.run(&mut orchestrator);
    assert_eq!(outcome, OrchestrationOutcome::Success("store server".to_string()));
    assert_eq!(
        host.log,
        vec![
            "probe /app/package.json",
            "setenv STORE_URL=file:/",
            "probe /",
            "run tool schema push in /app",
            "spawn server start in /app",
            "sleep 3",
        ]
    );
}

#[test]
fn settle_passes_over_steps_without_a_command() {
    let root = FsPath::parse("/app");
    let plain = store_deployment();
    assert_eq!(plain.settle(Step::GenerateSchema, &root), Step::ProbeResource);
    assert_eq!(plain.settle(Step::Build, &root), Step::Launch);
    assert_eq!(plain.settle(Step::ProbeResourceDir, &root), Step::ProbeResourceDir);
    assert_eq!(plain.settle(Step::InitSchema, &root), Step::InitSchema);
    let dashboard = deployment();
    assert_eq!(dashboard.settle(Step::GenerateSchema, &root), Step::GenerateSchema);
    let built = with_build(store_deployment(), OutputPolicy::Piped);
    assert_eq!(built.settle(Step::Build, &root), Step::Build);
    assert_eq!(
        built.working(Step::GenerateSchema, FsPath::parse("/app")),
        Stage::Working { step: Step::ProbeResource, root: FsPath::parse("/app") }
    );
}

#[test]
fn locate_starts_with_the_first_candidate() {
    assert_eq!(
        locate(vec![FsPath::parse("/a"), FsPath::parse("/b")]),
        Stage::Locating { candidate: FsPath::parse("/a"), rest: vec![FsPath::parse("/b")] }
    );
    assert_eq!(
        locate(Vec::new()),
        Stage::Finished { outcome: OrchestrationOutcome::DirectoryNotFound }
    );
}

#[test]
fn invoke_adds_nothing_to_the_environment() {
    let invocation =
        invoke(&CommandLine::new("npx").arg("prisma"), &FsPath::parse("/app"), OutputPolicy::Piped);
    assert_eq!(invocation.command, CommandLine::new("npx").arg("prisma"));
    assert_eq!(invocation.cwd, FsPath::parse("/app"));
    assert!(invocation.env.vars.is_empty());
    assert_eq!(invocation.output, OutputPolicy::Piped);
    let copy = invocation.clone();
    assert_eq!(copy.command, invocation.command);
}

#[test]
fn cycle_ends_within_the_bound_on_answered_actions() {
    let mut host = host(&["/home/me/package.json"]);
    let context = context(Some("/opt/bundle"), Some("/a/b/c/d/e/f/shell"), Some("/home/me"));
    let settings = with_build(deployment(), OutputPolicy::Piped);
    let mut orchestrator: Orchestrator<u32> = Orchestrator::new(settings, &context);
    let outcome = host.run(&mut orchestrator);
    assert_eq!(outcome, OrchestrationOutcome::Success("http://localhost:3005".to_string()));
    assert_eq!(host.log.len(), 16);
}

#[test]
fn at_most_one_handle_is_handed_over_in_a_cycle() {
    let mut host = host(&["/app/package.json"]);
    let context = context(Some("/app"), None, None);
    let mut orchestrator: Orchestrator<u32> = Orchestrator::new(store_deployment(), &context);
    let mut handed_over = Vec::new();
    for _ in 0..40 {
        if let Termination::Terminated(handle) = orchestrator.terminate() {
            handed_over.push(handle);
        }
        orchestrator.handle(Report::Spawned(1));
        let action = orchestrator.next_action();
        if let Some(report) = host.perform(&action) {
            orchestrator.handle(report);
        }
        orchestrator.handle(Report::Spawned(2));
        if let Termination::Terminated(handle) = orchestrator.terminate() {
            handed_over.push(handle);
        }
    }
    assert_eq!(orchestrator.outcome(), Some(OrchestrationOutcome::Success("store server".to_string())));
    assert_eq!(handed_over.len(), 1);
    assert!(!orchestrator.is_running());
}
