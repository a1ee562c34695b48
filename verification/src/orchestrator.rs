//! The cycle that locates, provisions, builds and starts the server.
//!
//! The orchestrator decides and the host acts. At every moment the
//! orchestrator names one action; the host carries it out and reports what
//! came of it; the report moves the orchestrator on. A report that does not
//! answer the pending action is ignored.
//!
//! The handle of the started server is kept in the orchestrator's
//! supervisor. Terminating takes it out again, at any time and any number of
//! times. A termination that comes before the start has been reported finds
//! nothing, and the server that is then reported stays supervised.

use crate::builder::{build_outcome, judge_build, BuildOutcome, BuildOutcomeModel};
use crate::command::{CommandLine, CommandModel, ExitStatus, Invocation, InvocationModel, OutputPolicy};
use crate::deployment::{Deployment, DeploymentModel};
use crate::effect::{command_result, fits, Action, ActionModel, Report, ReportModel};
use crate::env::Environment;
use crate::locator::{candidates, search_plan, ContextModel, SearchContext};
use crate::outcome::{
    clone_warnings, warning_views, Failure, FailureModel, OrchestrationOutcome, OutcomeModel,
    ProvisionStep, ProvisionWarning, WarningModel,
};
use crate::path::{clone_paths, path_views, FsPath, PathModel};
use crate::provision::{judge_step, prepare, prepared, warning_of};
use crate::supervisor::{
    slot_after_store, slot_after_terminate, termination_of, ProcessSupervisor, Termination,
};
use vstd::prelude::*;

verus! {

/// The steps of a cycle once the root is known, in their order.
#[derive(Clone, Copy, Debug, PartialEq, Eq, Structural)]
pub enum Step {
    /// Set the connection variable.
    ExportConnection,
    /// Find out whether the directory of the resource file exists.
    ProbeResourceDir,
    /// Create the directory of the resource file.
    CreateResourceDir,
    /// Run the schema-generation command.
    GenerateSchema,
    /// Find out whether the resource file exists.
    ProbeResource,
    /// Run the schema-initialisation command.
    InitSchema,
    /// Run the build command.
    Build,
    /// Start the server.
    Launch,
    /// Give the server time to begin listening.
    WarmUp,
}

impl Step {
    /// The steps that prepare the environment. None of them can end the
    /// cycle.
    pub open spec fn provisions(self) -> bool {
        self is ExportConnection || self is ProbeResourceDir || self is CreateResourceDir
            || self is GenerateSchema || self is ProbeResource || self is InitSchema
    }
}

/// Where a cycle stands, as texts.
pub enum StageModel {
    Locating { candidate: PathModel, rest: Seq<PathModel> },
    Working { step: Step, root: PathModel },
    Finished { outcome: OutcomeModel },
}

/// Where a cycle stands.
#[derive(Debug, PartialEq, Eq)]
pub enum Stage {
    /// The root is being searched: `candidate` is being probed, and the
    /// directories in `rest` are still to come.
    Locating { candidate: FsPath, rest: Vec<FsPath> },
    /// The root is known and `step` is pending.
    Working { step: Step, root: FsPath },
    /// The cycle has ended.
    Finished { outcome: OrchestrationOutcome },
}

impl View for Stage {
    type V = StageModel;

    open spec fn view(&self) -> StageModel {
        match self {
            Stage::Locating { candidate, rest } => StageModel::Locating {
                candidate: candidate@,
                rest: path_views(rest@),
            },
            Stage::Working { step, root } => StageModel::Working { step: *step, root: root@ },
            Stage::Finished { outcome } => StageModel::Finished { outcome: outcome@ },
        }
    }
}

impl Clone for Stage {
    fn clone(&self) -> (copy: Self)
        ensures
            copy@ == self@,
    {
        match self {
            Stage::Locating { candidate, rest } => Stage::Locating {
                candidate: candidate.clone(),
                rest: clone_paths(rest),
            },
            Stage::Working { step, root } => Stage::Working { step: *step, root: root.clone() },
            Stage::Finished { outcome } => Stage::Finished { outcome: outcome.clone() },
        }
    }
}

/// The invocation of `command` in `root` with nothing added to the
/// inherited environment.
pub open spec fn plain_invocation(
    command: CommandModel,
    root: PathModel,
    output: OutputPolicy,
) -> InvocationModel {
    InvocationModel { command, cwd: root, env: Map::empty(), output }
}

impl DeploymentModel {
    /// The step that is pending when `step` is next in line: `step` itself
    /// where the deployment calls for it, else the first later step that it
    /// calls for. The directory steps are passed over where the resource
    /// path names no directory, schema generation and build where the
    /// deployment has no command for them.
    pub open spec fn settle(self, step: Step, root: PathModel) -> Step {
        match step {
            Step::ProbeResourceDir | Step::CreateResourceDir => if prepared(
                self,
                root,
            ).resource_dir() is Some {
                step
            } else if self.schema_generate is Some {
                Step::GenerateSchema
            } else {
                Step::ProbeResource
            },
            Step::GenerateSchema => if self.schema_generate is Some {
                Step::GenerateSchema
            } else {
                Step::ProbeResource
            },
            Step::Build => if self.build is Some {
                Step::Build
            } else {
                Step::Launch
            },
            _ => step,
        }
    }

    /// The stage in which `step` is next in line.
    pub open spec fn working(self, step: Step, root: PathModel) -> StageModel {
        StageModel::Working { step: self.settle(step, root), root }
    }

    /// The action of a step that the deployment calls for.
    pub open spec fn step_action(self, step: Step, root: PathModel) -> ActionModel {
        let env = prepared(self, root);
        match step {
            Step::ExportConnection => ActionModel::SetEnv(env.connection),
            Step::ProbeResourceDir => ActionModel::Probe(env.resource.parent()),
            Step::CreateResourceDir => ActionModel::CreateDirAll(env.resource.parent()),
            Step::GenerateSchema => ActionModel::Run(
                plain_invocation(self.schema_generate->Some_0, root, OutputPolicy::Piped),
            ),
            Step::ProbeResource => ActionModel::Probe(env.resource),
            Step::InitSchema => ActionModel::Run(
                plain_invocation(self.schema_init, root, OutputPolicy::Piped),
            ),
            Step::Build => ActionModel::Run(
                plain_invocation(self.build->Some_0.command, root, self.build->Some_0.output),
            ),
            Step::Launch => ActionModel::Spawn(
                InvocationModel {
                    command: self.server,
                    cwd: root,
                    env: env.vars().union_prefer_right(self.spawn_overrides),
                    output: OutputPolicy::Piped,
                },
            ),
            Step::WarmUp => ActionModel::Sleep(self.warm_up_secs),
        }
    }
}

/// The stage that searches `pending`, or the end of the cycle where nothing
/// is left to search.
pub open spec fn locating(pending: Seq<PathModel>) -> StageModel {
    if pending.len() == 0 {
        StageModel::Finished { outcome: OutcomeModel::DirectoryNotFound }
    } else {
        StageModel::Locating { candidate: pending[0], rest: pending.skip(1) }
    }
}

/// The orchestrator as a mathematical value.
pub struct OrchestratorModel<H> {
    pub config: DeploymentModel,
    pub stage: StageModel,
    pub warnings: Seq<WarningModel>,
    pub slot: Option<H>,
}

impl<H> OrchestratorModel<H> {
    /// The orchestrator at the start of a cycle.
    pub open spec fn start(config: DeploymentModel, context: ContextModel) -> Self {
        OrchestratorModel {
            config,
            stage: locating(candidates(context)),
            warnings: Seq::empty(),
            slot: None,
        }
    }

    /// The same orchestrator in another stage.
    pub open spec fn at(self, stage: StageModel) -> Self {
        OrchestratorModel { stage, ..self }
    }

    /// The same orchestrator with the warning, if any, added.
    pub open spec fn noted(self, warning: Option<WarningModel>) -> Self {
        match warning {
            Some(warning) => OrchestratorModel { warnings: self.warnings.push(warning), ..self },
            None => self,
        }
    }

    /// The action that is pending.
    pub open spec fn action(self) -> ActionModel {
        match self.stage {
            StageModel::Locating { candidate, rest } => ActionModel::Probe(
                candidate.child(self.config.manifest),
            ),
            StageModel::Working { step, root } => self.config.step_action(
                self.config.settle(step, root),
                root,
            ),
            StageModel::Finished { outcome } => ActionModel::Finish(outcome),
        }
    }

    /// How the cycle ended, once it has.
    pub open spec fn outcome(self) -> Option<OutcomeModel> {
        match self.stage {
            StageModel::Finished { outcome } => Some(outcome),
            _ => None,
        }
    }

    /// The orchestrator after `report` on a pending step.
    pub open spec fn step_next(self, step: Step, root: PathModel, report: ReportModel<H>) -> Self {
        let config = self.config;
        match step {
            Step::ExportConnection => match report {
                ReportModel::Completed => self.at(config.working(Step::ProbeResourceDir, root)),
                _ => self,
            },
            Step::ProbeResourceDir => match report {
                ReportModel::Exists(true) => self.at(config.working(Step::GenerateSchema, root)),
                ReportModel::Exists(false) => self.at(
                    config.working(Step::CreateResourceDir, root),
                ),
                _ => self,
            },
            Step::CreateResourceDir => match report {
                ReportModel::Completed => self.at(config.working(Step::GenerateSchema, root)),
                ReportModel::Failed(cause) => self.noted(
                    Some(
                        WarningModel {
                            step: ProvisionStep::CreateResourceDir,
                            failure: FailureModel::Io(cause),
                        },
                    ),
                ).at(config.working(Step::GenerateSchema, root)),
                _ => self,
            },
            Step::GenerateSchema => match command_result(report) {
                Some(result) => self.noted(warning_of(ProvisionStep::GenerateSchema, result)).at(
                    config.working(Step::ProbeResource, root),
                ),
                None => self,
            },
            Step::ProbeResource => match report {
                ReportModel::Exists(true) => self.at(config.working(Step::Build, root)),
                ReportModel::Exists(false) => self.at(config.working(Step::InitSchema, root)),
                _ => self,
            },
            Step::InitSchema => match command_result(report) {
                Some(result) => self.noted(warning_of(ProvisionStep::InitSchema, result)).at(
                    config.working(Step::Build, root),
                ),
                None => self,
            },
            Step::Build => match command_result(report) {
                Some(result) => match build_outcome(result) {
                    BuildOutcomeModel::Success => self.at(config.working(Step::Launch, root)),
                    BuildOutcomeModel::BuildFailed(status) => self.at(
                        StageModel::Finished { outcome: OutcomeModel::BuildFailed(status) },
                    ),
                    BuildOutcomeModel::SpawnFailed(cause) => self.at(
                        StageModel::Finished { outcome: OutcomeModel::SpawnFailed(cause) },
                    ),
                },
                None => self,
            },
            Step::Launch => match report {
                ReportModel::Spawned(handle) => OrchestratorModel {
                    stage: config.working(Step::WarmUp, root),
                    slot: slot_after_store(self.slot, handle),
                    ..self
                },
                ReportModel::Failed(cause) => self.at(
                    StageModel::Finished { outcome: OutcomeModel::SpawnFailed(cause) },
                ),
                _ => self,
            },
            Step::WarmUp => match report {
                ReportModel::Completed => self.at(
                    StageModel::Finished { outcome: OutcomeModel::Success(config.description) },
                ),
                _ => self,
            },
        }
    }

    /// The orchestrator after `report`.
    pub open spec fn next(self, report: ReportModel<H>) -> Self {
        match self.stage {
            StageModel::Locating { candidate, rest } => match report {
                ReportModel::Exists(true) => self.at(
                    self.config.working(Step::ExportConnection, candidate),
                ),
                ReportModel::Exists(false) => self.at(locating(rest)),
                _ => self,
            },
            StageModel::Working { step, root } => self.step_next(
                self.config.settle(step, root),
                root,
                report,
            ),
            StageModel::Finished { outcome } => self,
        }
    }

    /// The orchestrator after the reports, one after another.
    pub open spec fn run(self, reports: Seq<ReportModel<H>>) -> Self
        decreases reports.len(),
    {
        if reports.len() == 0 {
            self
        } else {
            self.next(reports[0]).run(reports.skip(1))
        }
    }

    /// The orchestrator after a termination.
    pub open spec fn terminated(self) -> Self {
        OrchestratorModel { slot: slot_after_terminate(self.slot), ..self }
    }
}

/// The sequencing of one cycle together with the supervisor of the server
/// that the cycle starts.
#[derive(Debug)]
pub struct Orchestrator<H> {
    config: Deployment,
    stage: Stage,
    warnings: Vec<ProvisionWarning>,
    supervisor: ProcessSupervisor<H>,
}

impl<H> View for Orchestrator<H> {
    type V = OrchestratorModel<H>;

    closed spec fn view(&self) -> OrchestratorModel<H> {
        OrchestratorModel {
            config: self.config@,
            stage: self.stage@,
            warnings: warning_views(self.warnings@),
            slot: self.supervisor@,
        }
    }
}

impl Deployment {
    /// The step that is pending when `step` is next in line.
    pub fn settle(&self, step: Step, root: &FsPath) -> (settled: Step)
        ensures
            settled == self@.settle(step, root@),
    {
        match step {
            Step::ProbeResourceDir | Step::CreateResourceDir => {
                if prepare(self, root).resource.has_parent() {
                    step
                } else if self.schema_generate.is_some() {
                    Step::GenerateSchema
                } else {
                    Step::ProbeResource
                }
            },
            Step::GenerateSchema => {
                if self.schema_generate.is_some() {
                    Step::GenerateSchema
                } else {
                    Step::ProbeResource
                }
            },
            Step::Build => {
                if self.build.is_some() {
                    Step::Build
                } else {
                    Step::Launch
                }
            },
            _ => step,
        }
    }

    /// The stage in which `step` is next in line.
    pub fn working(&self, step: Step, root: FsPath) -> (stage: Stage)
        ensures
            stage@ == self@.working(step, root@),
    {
        let step = self.settle(step, &root);
        Stage::Working { step, root }
    }

    /// The action of the step that is pending when `step` is next in line.
    pub fn step_action(&self, step: Step, root: &FsPath) -> (action: Action)
        ensures
            action@ == self@.step_action(self@.settle(step, root@), root@),
    {
        let step = self.settle(step, root);
        let env = prepare(self, root);
        match step {
            Step::ExportConnection => Action::SetEnv(env.connection),
            Step::ProbeResourceDir => {
                let mut dir = env.resource;
                dir.pop();
                Action::Probe(dir)
            },
            Step::CreateResourceDir => {
                let mut dir = env.resource;
                dir.pop();
                Action::CreateDirAll(dir)
            },
            Step::GenerateSchema => {
                let command = self.schema_generate.as_ref().unwrap();
                Action::Run(invoke(command, root, OutputPolicy::Piped))
            },
            Step::ProbeResource => Action::Probe(env.resource),
            Step::InitSchema => Action::Run(invoke(&self.schema_init, root, OutputPolicy::Piped)),
            Step::Build => {
                let build = self.build.as_ref().unwrap();
                Action::Run(invoke(&build.command, root, build.output))
            },
            Step::Launch => {
                let vars = env.vars().overlaid_with(&self.spawn_overrides);
                Action::Spawn(
                    Invocation {
                        command: self.server.clone(),
                        cwd: root.clone(),
                        env: vars,
                        output: OutputPolicy::Piped,
                    },
                )
            },
            Step::WarmUp => Action::Sleep(self.warm_up_secs),
        }
    }
}

/// The invocation of `command` in `root` with nothing added to the
/// inherited environment.
pub fn invoke(command: &CommandLine, root: &FsPath, output: OutputPolicy) -> (invocation:
    Invocation)
    ensures
        invocation@ == plain_invocation(command@, root@, output),
{
    Invocation { command: command.clone(), cwd: root.clone(), env: Environment::new(), output }
}

/// The stage that searches `pending`, or the end of the cycle where nothing
/// is left to search.
pub fn locate(pending: Vec<FsPath>) -> (stage: Stage)
    ensures
        stage@ == locating(path_views(pending@)),
{
    let mut pending = pending;
    if pending.len() == 0 {
        Stage::Finished { outcome: OrchestrationOutcome::DirectoryNotFound }
    } else {
        let ghost all = path_views(pending@);
        let candidate = pending.remove(0);
        assert(path_views(pending@) =~= all.skip(1));
        Stage::Locating { candidate, rest: pending }
    }
}

impl<H> Orchestrator<H> {
    /// An orchestrator at the start of a cycle: nothing is supervised, and
    /// the search for the root is about to begin.
    pub fn new(config: Deployment, context: &SearchContext) -> (orchestrator: Self)
        ensures
            orchestrator@ == OrchestratorModel::<H>::start(config@, context@),
    {
        let stage = locate(search_plan(context));
        let orchestrator = Orchestrator {
            config,
            stage,
            warnings: Vec::new(),
            supervisor: ProcessSupervisor::new(),
        };
        assert(warning_views(orchestrator.warnings@) =~= Seq::<WarningModel>::empty());
        orchestrator
    }

    /// The action that the host is to carry out now.
    pub fn next_action(&self) -> (action: Action)
        ensures
            action@ == self@.action(),
    {
        match &self.stage {
            Stage::Locating { candidate, rest } => Action::Probe(
                candidate.child(self.config.manifest.as_str()),
            ),
            Stage::Working { step, root } => self.config.step_action(*step, root),
            Stage::Finished { outcome } => Action::Finish(outcome.clone()),
        }
    }

    /// Takes in what came of the pending action and moves on. Says whether
    /// the report answered the pending action; one that does not is ignored.
    pub fn handle(&mut self, report: Report<H>) -> (accepted: bool)
        ensures
            final(self)@ == old(self)@.next(report@),
            accepted == fits(old(self)@.action(), report@),
    {
        let stage = self.stage.clone();
        match stage {
            Stage::Locating { candidate, rest } => {
                match report {
                    Report::Exists(found) => {
                        if found {
                            self.stage = self.config.working(Step::ExportConnection, candidate);
                        } else {
                            self.stage = locate(rest);
                        }
                        true
                    },
                    _ => false,
                }
            },
            Stage::Working { step, root } => {
                let step = self.config.settle(step, &root);
                self.handle_step(step, root, report)
            },
            Stage::Finished { outcome } => false,
        }
    }

    /// Takes in a report while `step`, which the deployment calls for, is
    /// pending.
    fn handle_step(&mut self, step: Step, root: FsPath, report: Report<H>) -> (accepted: bool)
        requires
            old(self)@.config.settle(step, root@) == step,
        ensures
            final(self)@ == old(self)@.step_next(step, root@, report@),
            accepted == fits(old(self)@.config.step_action(step, root@), report@),
    {
        match step {
            Step::ExportConnection => match report {
                Report::Completed => {
                    self.stage = self.config.working(Step::ProbeResourceDir, root);
                    true
                },
                _ => false,
            },
            Step::ProbeResourceDir => match report {
                Report::Exists(found) => {
                    if found {
                        self.stage = self.config.working(Step::GenerateSchema, root);
                    } else {
                        self.stage = self.config.working(Step::CreateResourceDir, root);
                    }
                    true
                },
                _ => false,
            },
            Step::CreateResourceDir => match report {
                Report::Completed => {
                    self.stage = self.config.working(Step::GenerateSchema, root);
                    true
                },
                Report::Failed(cause) => {
                    self.note(
                        Some(
                            ProvisionWarning {
                                step: ProvisionStep::CreateResourceDir,
                                failure: Failure::Io(cause),
                            },
                        ),
                    );
                    self.stage = self.config.working(Step::GenerateSchema, root);
                    true
                },
                _ => false,
            },
            Step::GenerateSchema => match command_result_of(report) {
                Some(result) => {
                    self.note(judge_step(ProvisionStep::GenerateSchema, result));
                    self.stage = self.config.working(Step::ProbeResource, root);
                    true
                },
                None => false,
            },
            Step::ProbeResource => match report {
                Report::Exists(found) => {
                    if found {
                        self.stage = self.config.working(Step::Build, root);
                    } else {
                        self.stage = self.config.working(Step::InitSchema, root);
                    }
                    true
                },
                _ => false,
            },
            Step::InitSchema => match command_result_of(report) {
                Some(result) => {
                    self.note(judge_step(ProvisionStep::InitSchema, result));
                    self.stage = self.config.working(Step::Build, root);
                    true
                },
                None => false,
            },
            Step::Build => match command_result_of(report) {
                Some(result) => {
                    match judge_build(result) {
                        BuildOutcome::Success => {
                            self.stage = self.config.working(Step::Launch, root);
                        },
                        BuildOutcome::BuildFailed(status) => {
                            self.stage = Stage::Finished {
                                outcome: OrchestrationOutcome::BuildFailed(status),
                            };
                        },
                        BuildOutcome::SpawnFailed(cause) => {
                            self.stage = Stage::Finished {
                                outcome: OrchestrationOutcome::SpawnFailed(cause),
                            };
                        },
                    }
                    true
                },
                None => false,
            },
            Step::Launch => match report {
                Report::Spawned(handle) => {
                    self.supervisor.store(handle);
                    self.stage = self.config.working(Step::WarmUp, root);
                    true
                },
                Report::Failed(cause) => {
                    self.stage = Stage::Finished {
                        outcome: OrchestrationOutcome::SpawnFailed(cause),
                    };
                    true
                },
                _ => false,
            },
            Step::WarmUp => match report {
                Report::Completed => {
                    self.stage = Stage::Finished {
                        outcome: OrchestrationOutcome::Success(self.config.description.clone()),
                    };
                    true
                },
                _ => false,
            },
        }
    }

    /// Adds the warning, if there is one.
    fn note(&mut self, warning: Option<ProvisionWarning>)
        ensures
            final(self)@ == old(self)@.noted(
                match warning {
                    Some(warning) => Some(warning@),
                    None => None,
                },
            ),
    {
        match warning {
            Some(warning) => {
                let ghost before = warning_views(self.warnings@);
                let ghost added = warning@;
                self.warnings.push(warning);
                assert(warning_views(self.warnings@) =~= before.push(added));
            },
            None => {},
        }
    }

    /// Takes the handle of the supervised server out of the supervisor, for
    /// the caller to kill the process and wait for its exit. Where nothing
    /// is supervised this does nothing. The cycle itself goes on unchanged.
    pub fn terminate(&mut self) -> (termination: Termination<H>)
        ensures
            final(self)@ == old(self)@.terminated(),
            termination == termination_of(old(self)@.slot),
    {
        self.supervisor.terminate()
    }

    /// Whether a server is being supervised.
    pub fn is_running(&self) -> (running: bool)
        ensures
            running == (self@.slot is Some),
    {
        self.supervisor.is_running()
    }

    /// Where the cycle stands.
    pub fn stage(&self) -> (stage: Stage)
        ensures
            stage@ == self@.stage,
    {
        self.stage.clone()
    }

    /// How the cycle ended, once it has.
    pub fn outcome(&self) -> (outcome: Option<OrchestrationOutcome>)
        ensures
            match outcome {
                Some(outcome) => self@.outcome() == Some(outcome@),
                None => self@.outcome() is None,
            },
    {
        match &self.stage {
            Stage::Finished { outcome } => Some(outcome.clone()),
            _ => None,
        }
    }

    /// The root of the managed application, once it is known and while the
    /// cycle works with it.
    pub fn root(&self) -> (root: Option<FsPath>)
        ensures
            match root {
                Some(root) => self@.stage is Working && self@.stage->Working_root == root@,
                None => !(self@.stage is Working),
            },
    {
        match &self.stage {
            Stage::Working { step, root } => Some(root.clone()),
            _ => None,
        }
    }

    /// The warnings that provisioning has left so far.
    pub fn warnings(&self) -> (warnings: Vec<ProvisionWarning>)
        ensures
            warning_views(warnings@) == self@.warnings,
    {
        clone_warnings(&self.warnings)
    }
}

/// The result of a command that a report carries, if it carries one.
fn command_result_of<H>(report: Report<H>) -> (result: Option<Result<ExitStatus, String>>)
    ensures
        command_result(report@) == match result {
            Some(Ok(status)) => Some(Ok::<ExitStatus, Seq<char>>(status)),
            Some(Err(cause)) => Some(Err::<ExitStatus, Seq<char>>(cause@)),
            None => None,
        },
{
    match report {
        Report::Exited(status) => Some(Ok(status)),
        Report::Failed(cause) => Some(Err(cause)),
        _ => None,
    }
}

} // verus!
