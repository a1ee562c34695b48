//! Judging the one-shot build.

use crate::command::ExitStatus;
use vstd::prelude::*;

verus! {

/// The result of a build, as texts.
pub enum BuildOutcomeModel {
    Success,
    BuildFailed(ExitStatus),
    SpawnFailed(Seq<char>),
}

/// How the build went.
#[derive(Debug, PartialEq, Eq)]
pub enum BuildOutcome {
    /// The build command left with exit code zero.
    Success,
    /// The build command ran and left otherwise.
    BuildFailed(ExitStatus),
    /// The build command could not be launched; the text gives the cause.
    SpawnFailed(String),
}

impl View for BuildOutcome {
    type V = BuildOutcomeModel;

    open spec fn view(&self) -> BuildOutcomeModel {
        match self {
            BuildOutcome::Success => BuildOutcomeModel::Success,
            BuildOutcome::BuildFailed(status) => BuildOutcomeModel::BuildFailed(*status),
            BuildOutcome::SpawnFailed(cause) => BuildOutcomeModel::SpawnFailed(cause@),
        }
    }
}

/// How a build with the given result went.
pub open spec fn build_outcome(result: Result<ExitStatus, Seq<char>>) -> BuildOutcomeModel {
    match result {
        Ok(status) => if status.succeeded() {
            BuildOutcomeModel::Success
        } else {
            BuildOutcomeModel::BuildFailed(status)
        },
        Err(cause) => BuildOutcomeModel::SpawnFailed(cause),
    }
}

/// Judges the result of the build command: `Ok` with how the command left,
/// `Err` with the cause where it could not be launched.
pub fn judge_build(result: Result<ExitStatus, String>) -> (outcome: BuildOutcome)
    ensures
        outcome@ == build_outcome(
            match result {
                Ok(status) => Ok(status),
                Err(cause) => Err(cause@),
            },
        ),
{
    match result {
        Ok(status) => {
            if status.success() {
                BuildOutcome::Success
            } else {
                BuildOutcome::BuildFailed(status)
            }
        },
        Err(cause) => BuildOutcome::SpawnFailed(cause),
    }
}

/// Only exit code zero is a successful build.
pub proof fn law_build_success_is_exit_zero(result: Result<ExitStatus, Seq<char>>)
    ensures
        build_outcome(result) is Success <==> result == Ok::<ExitStatus, Seq<char>>(
            ExitStatus { code: Some(0i32) },
        ),
{
}

} // verus!
