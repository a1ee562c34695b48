use sidecar::builder::{judge_build, BuildOutcome};
use sidecar::command::{CommandLine, ExitStatus};
use sidecar::outcome::{Failure, ProvisionStep, ProvisionWarning};
use sidecar::provision::judge_step;

#[test]
fn exit_zero_is_a_successful_build() {
    assert_eq!(judge_build(Ok(ExitStatus::from_code(0))), BuildOutcome::Success);
}

#[test]
fn exit_one_is_a_failed_build() {
    assert_eq!(
        judge_build(Ok(ExitStatus::from_code(1))),
        BuildOutcome::BuildFailed(ExitStatus { code: Some(1) })
    );
}

#[test]
fn negative_exit_code_is_a_failed_build() {
    assert_eq!(
        judge_build(Ok(ExitStatus::from_code(-1))),
        BuildOutcome::BuildFailed(ExitStatus { code: Some(-1) })
    );
}

#[test]
fn build_ended_by_signal_is_a_failed_build() {
    assert_eq!(
        judge_build(Ok(ExitStatus { code: None })),
        BuildOutcome::BuildFailed(ExitStatus { code: None })
    );
}

#[test]
fn build_that_cannot_be_launched_is_a_spawn_failure() {
    assert_eq!(
        judge_build(Err("No such file or directory".to_string())),
        BuildOutcome::SpawnFailed("No such file or directory".to_string())
    );
}

#[test]
fn exit_status_success_only_for_code_zero() {
    assert!(ExitStatus::from_code(0).success());
    assert!(!ExitStatus::from_code(1).success());
    assert!(!ExitStatus::from_code(255).success());
    assert!(!ExitStatus { code: None }.success());
    assert_eq!(ExitStatus::from_code(3).code, Some(3));
}

#[test]
fn successful_step_leaves_no_warning() {
    assert_eq!(judge_step(ProvisionStep::GenerateSchema, Ok(ExitStatus::from_code(0))), None);
}

#[test]
fn failed_step_leaves_a_warning_with_its_status() {
    assert_eq!(
        judge_step(ProvisionStep::InitSchema, Ok(ExitStatus::from_code(2))),
        Some(ProvisionWarning {
            step: ProvisionStep::InitSchema,
            failure: Failure::Exit(ExitStatus { code: Some(2) }),
        })
    );
}

#[test]
fn step_that_cannot_be_launched_leaves_a_warning_with_its_cause() {
    assert_eq!(
        judge_step(ProvisionStep::GenerateSchema, Err("npx not found".to_string())),
        Some(ProvisionWarning {
            step: ProvisionStep::GenerateSchema,
            failure: Failure::Io("npx not found".to_string()),
        })
    );
}

#[test]
fn command_line_builder_collects_arguments_in_order() {
    let command = CommandLine::new("npx").arg("prisma").arg("db").arg("push");
    assert_eq!(command.program, "npx");
    assert_eq!(command.args, vec!["prisma".to_string(), "db".to_string(), "push".to_string()]);
    assert_eq!(command.clone(), command);
    assert!(CommandLine::new("pnpm").args.is_empty());
}
