//! What the orchestrator asks of its host, and what the host answers.

use crate::command::{ExitStatus, Invocation, InvocationModel};
use crate::env::{EnvVar, EnvVarModel};
use crate::outcome::{OrchestrationOutcome, OutcomeModel};
use crate::path::{FsPath, PathModel};
use vstd::prelude::*;

verus! {

/// An action, as texts.
pub enum ActionModel {
    Probe(PathModel),
    SetEnv(EnvVarModel),
    CreateDirAll(PathModel),
    Run(InvocationModel),
    Spawn(InvocationModel),
    Sleep(u64),
    Finish(OutcomeModel),
}

/// One thing for the host to do.
#[derive(Debug)]
pub enum Action {
    /// Find out whether the path exists. Answer with `Report::Exists`.
    Probe(FsPath),
    /// Set the variable in the environment of the host process, so that
    /// children started later inherit it. Answer with `Report::Completed`.
    SetEnv(EnvVar),
    /// Create the directory and every missing directory above it. Answer
    /// with `Report::Completed`, or with `Report::Failed` and the cause.
    CreateDirAll(FsPath),
    /// Run the command and wait for its end. Answer with `Report::Exited`
    /// and how it left, or with `Report::Failed` where it could not be
    /// launched.
    Run(Invocation),
    /// Start the command without waiting for its end. Answer with
    /// `Report::Spawned` and the handle of the process, or with
    /// `Report::Failed` where it could not be launched.
    Spawn(Invocation),
    /// Wait for the given number of seconds. Answer with
    /// `Report::Completed`.
    Sleep(u64),
    /// Nothing is left to do: the cycle has ended with this outcome.
    Finish(OrchestrationOutcome),
}

impl View for Action {
    type V = ActionModel;

    open spec fn view(&self) -> ActionModel {
        match self {
            Action::Probe(path) => ActionModel::Probe(path@),
            Action::SetEnv(var) => ActionModel::SetEnv(var@),
            Action::CreateDirAll(path) => ActionModel::CreateDirAll(path@),
            Action::Run(invocation) => ActionModel::Run(invocation@),
            Action::Spawn(invocation) => ActionModel::Spawn(invocation@),
            Action::Sleep(seconds) => ActionModel::Sleep(*seconds),
            Action::Finish(outcome) => ActionModel::Finish(outcome@),
        }
    }
}

/// A report, as texts.
pub enum ReportModel<H> {
    Exists(bool),
    Completed,
    Failed(Seq<char>),
    Exited(ExitStatus),
    Spawned(H),
}

/// What came of the action that the host carried out.
#[derive(Debug)]
pub enum Report<H> {
    /// Whether the probed path exists.
    Exists(bool),
    /// The action was carried out.
    Completed,
    /// The action could not be carried out; the text gives the cause.
    Failed(String),
    /// The command ran to its end and left this way.
    Exited(ExitStatus),
    /// The process was started; this is its handle.
    Spawned(H),
}

impl<H> View for Report<H> {
    type V = ReportModel<H>;

    open spec fn view(&self) -> ReportModel<H> {
        match self {
            Report::Exists(found) => ReportModel::Exists(*found),
            Report::Completed => ReportModel::Completed,
            Report::Failed(cause) => ReportModel::Failed(cause@),
            Report::Exited(status) => ReportModel::Exited(*status),
            Report::Spawned(handle) => ReportModel::Spawned(*handle),
        }
    }
}

/// Whether `report` answers `action`.
pub open spec fn fits<H>(action: ActionModel, report: ReportModel<H>) -> bool {
    match action {
        ActionModel::Probe(_) => report is Exists,
        ActionModel::SetEnv(_) => report is Completed,
        ActionModel::CreateDirAll(_) => report is Completed || report is Failed,
        ActionModel::Run(_) => report is Exited || report is Failed,
        ActionModel::Spawn(_) => report is Spawned || report is Failed,
        ActionModel::Sleep(_) => report is Completed,
        ActionModel::Finish(_) => false,
    }
}

/// The result of a command that a report carries, if it carries one: how
/// the command left, or why it could not be launched.
pub open spec fn command_result<H>(report: ReportModel<H>) -> Option<
    Result<ExitStatus, Seq<char>>,
> {
    match report {
        ReportModel::Exited(status) => Some(Ok(status)),
        ReportModel::Failed(cause) => Some(Err(cause)),
        _ => None,
    }
}

} // verus!
