//! Results of an orchestration cycle and of its stages.

use crate::command::ExitStatus;
use vstd::prelude::*;

verus! {

/// The outcome of a cycle, as texts.
pub enum OutcomeModel {
    Success(Seq<char>),
    DirectoryNotFound,
    BuildFailed(ExitStatus),
    SpawnFailed(Seq<char>),
    ProvisionFailed(Seq<char>),
}

/// How one cycle of locating, provisioning, building and starting ended.
#[derive(Debug, PartialEq, Eq)]
pub enum OrchestrationOutcome {
    /// The server was started; the text describes it.
    Success(String),
    /// No searched directory holds the manifest.
    DirectoryNotFound,
    /// The build command ran and left without success.
    BuildFailed(ExitStatus),
    /// A child process could not be launched; the text gives the cause.
    SpawnFailed(String),
    /// Provisioning could not go on; the text gives the cause.
    ProvisionFailed(String),
}

impl View for OrchestrationOutcome {
    type V = OutcomeModel;

    open spec fn view(&self) -> OutcomeModel {
        match self {
            OrchestrationOutcome::Success(description) => OutcomeModel::Success(description@),
            OrchestrationOutcome::DirectoryNotFound => OutcomeModel::DirectoryNotFound,
            OrchestrationOutcome::BuildFailed(status) => OutcomeModel::BuildFailed(*status),
            OrchestrationOutcome::SpawnFailed(cause) => OutcomeModel::SpawnFailed(cause@),
            OrchestrationOutcome::ProvisionFailed(cause) => OutcomeModel::ProvisionFailed(cause@),
        }
    }
}

impl Clone for OrchestrationOutcome {
    fn clone(&self) -> (copy: Self)
        ensures
            copy@ == self@,
    {
        match self {
            OrchestrationOutcome::Success(description) => OrchestrationOutcome::Success(
                description.clone(),
            ),
            OrchestrationOutcome::DirectoryNotFound => OrchestrationOutcome::DirectoryNotFound,
            OrchestrationOutcome::BuildFailed(status) => OrchestrationOutcome::BuildFailed(*status),
            OrchestrationOutcome::SpawnFailed(cause) => OrchestrationOutcome::SpawnFailed(
                cause.clone(),
            ),
            OrchestrationOutcome::ProvisionFailed(cause) => OrchestrationOutcome::ProvisionFailed(
                cause.clone(),
            ),
        }
    }
}

/// The provisioning steps whose failure is a warning.
#[derive(Clone, Copy, Debug, PartialEq, Eq, Structural)]
pub enum ProvisionStep {
    CreateResourceDir,
    GenerateSchema,
    InitSchema,
}

/// Why a step failed, as texts.
pub enum FailureModel {
    Exit(ExitStatus),
    Io(Seq<char>),
}

/// Why a step failed: its command left without success, or the step could
/// not be carried out at all.
#[derive(Debug, PartialEq, Eq)]
pub enum Failure {
    Exit(ExitStatus),
    Io(String),
}

impl View for Failure {
    type V = FailureModel;

    open spec fn view(&self) -> FailureModel {
        match self {
            Failure::Exit(status) => FailureModel::Exit(*status),
            Failure::Io(cause) => FailureModel::Io(cause@),
        }
    }
}

impl Clone for Failure {
    fn clone(&self) -> (copy: Self)
        ensures
            copy@ == self@,
    {
        match self {
            Failure::Exit(status) => Failure::Exit(*status),
            Failure::Io(cause) => Failure::Io(cause.clone()),
        }
    }
}

/// A warning, as texts.
pub struct WarningModel {
    pub step: ProvisionStep,
    pub failure: FailureModel,
}

/// A provisioning step that failed without stopping the cycle.
#[derive(Debug, PartialEq, Eq)]
pub struct ProvisionWarning {
    pub step: ProvisionStep,
    pub failure: Failure,
}

impl View for ProvisionWarning {
    type V = WarningModel;

    open spec fn view(&self) -> WarningModel {
        WarningModel { step: self.step, failure: self.failure@ }
    }
}

impl Clone for ProvisionWarning {
    fn clone(&self) -> (copy: Self)
        ensures
            copy@ == self@,
    {
        ProvisionWarning { step: self.step, failure: self.failure.clone() }
    }
}

/// The views of a list of warnings.
pub open spec fn warning_views(warnings: Seq<ProvisionWarning>) -> Seq<WarningModel> {
    Seq::new(warnings.len(), |i: int| warnings[i]@)
}

/// A copy of a list of warnings.
pub fn clone_warnings(warnings: &Vec<ProvisionWarning>) -> (copy: Vec<ProvisionWarning>)
    ensures
        warning_views(copy@) == warning_views(warnings@),
{
    let mut copy: Vec<ProvisionWarning> = Vec::new();
    let mut i: usize = 0;
    while i < warnings.len()
        invariant
            i <= warnings.len(),
            copy.len() == i,
            forall|j: int| 0 <= j < i ==> copy@[j]@ == warnings@[j]@,
        decreases warnings.len() - i,
    {
        copy.push(warnings[i].clone());
        i += 1;
    }
    assert(warning_views(copy@) =~= warning_views(warnings@));
    copy
}

} // verus!
