use conformance_sync::action::{outcome_of_step, parse_operation, Action, Operation, SyncError};
use conformance_sync::command::{args_of, cwd_of, hash_file_path, program_of, repo_url, target_version};
use conformance_sync::model::{simulate, ArtifactState};
use conformance_sync::plan::{
    clean, copy_conformance_tests, generate_current_hash, plan_of, run_result, update,
    update_conformance_tests,
};

fn absent() -> ArtifactState {
    ArtifactState { working_clone: false, fixture_dir: false, hash_marker: false }
}

#[test]
fn parse_selects_each_operation() {
    assert_eq!(parse_operation("clean"), Operation::Clean);
    assert_eq!(parse_operation("generate-hash"), Operation::GenerateHash);
    assert_eq!(parse_operation("force-update"), Operation::ForceUpdate);
    assert_eq!(parse_operation("copy"), Operation::Copy);
}

#[test]
fn parse_falls_through_to_update() {
    assert_eq!(parse_operation(""), Operation::Update);
    assert_eq!(parse_operation("update"), Operation::Update);
    assert_eq!(parse_operation("Clean"), Operation::Update);
    assert_eq!(parse_operation("clean "), Operation::Update);
}

#[test]
fn plans_hold_the_documented_steps() {
    assert_eq!(clean(), vec![Action::RemoveArtifacts]);
    assert_eq!(generate_current_hash(), vec![Action::QueryHead, Action::WriteHashFile]);
    assert_eq!(
        update_conformance_tests(),
        vec![
            Action::CloneRepo,
            Action::FetchAll,
            Action::CheckoutTag,
            Action::QueryHead,
            Action::WriteHashFile,
        ]
    );
    assert_eq!(copy_conformance_tests(), vec![Action::CopyFixtures]);
    assert_eq!(
        update(),
        vec![
            Action::RemoveArtifacts,
            Action::CloneRepo,
            Action::FetchAll,
            Action::CheckoutTag,
            Action::QueryHead,
            Action::WriteHashFile,
            Action::CopyFixtures,
        ]
    );
}

#[test]
fn plan_of_matches_the_named_operations() {
    assert_eq!(plan_of(Operation::Clean), clean());
    assert_eq!(plan_of(Operation::GenerateHash), generate_current_hash());
    assert_eq!(plan_of(Operation::ForceUpdate), update_conformance_tests());
    assert_eq!(plan_of(Operation::Copy), copy_conformance_tests());
    assert_eq!(plan_of(Operation::Update), update());
}

#[test]
fn each_failing_step_reports_its_own_error() {
    assert_eq!(
        outcome_of_step(Action::RemoveArtifacts, false),
        Some(SyncError::CleanupFailed)
    );
    assert_eq!(outcome_of_step(Action::CloneRepo, false), Some(SyncError::CloneFailed));
    assert_eq!(outcome_of_step(Action::FetchAll, false), Some(SyncError::FetchFailed));
    assert_eq!(
        outcome_of_step(Action::CheckoutTag, false),
        Some(SyncError::CheckoutFailed)
    );
    assert_eq!(outcome_of_step(Action::WriteHashFile, false), Some(SyncError::WriteFailed));
    assert_eq!(outcome_of_step(Action::CopyFixtures, false), Some(SyncError::CopyFailed));
}

#[test]
fn a_successful_step_reports_no_error() {
    assert_eq!(outcome_of_step(Action::RemoveArtifacts, true), None);
    assert_eq!(outcome_of_step(Action::CloneRepo, true), None);
    assert_eq!(outcome_of_step(Action::WriteHashFile, true), None);
}

#[test]
fn the_revision_query_failure_is_swallowed() {
    assert_eq!(outcome_of_step(Action::QueryHead, false), None);
    assert_eq!(outcome_of_step(Action::QueryHead, true), None);
}

#[test]
fn a_run_aborts_at_the_first_failure() {
    let plan = update_conformance_tests();
    let outcomes = vec![true, false, false, false, false];
    assert_eq!(run_result(&plan, &outcomes), Err(SyncError::FetchFailed));
}

#[test]
fn a_run_with_no_failure_succeeds() {
    let plan = update();
    let outcomes = vec![true; 7];
    assert_eq!(run_result(&plan, &outcomes), Ok(()));
    let empty_plan = Vec::new();
    let no_outcomes = Vec::new();
    assert_eq!(run_result(&empty_plan, &no_outcomes), Ok(()));
}

#[test]
fn a_failed_query_does_not_abort_hash_generation() {
    let plan = generate_current_hash();
    let outcomes = vec![false, true];
    assert_eq!(run_result(&plan, &outcomes), Ok(()));
}

#[test]
fn clean_with_no_artifacts_still_succeeds() {
    // Scenario: nothing to delete; the delete tool tolerates missing paths.
    let plan = clean();
    let (end, verdict) = simulate(&plan, &vec![true], absent());
    assert_eq!(verdict, Ok(()));
    assert_eq!(end, absent());
}

#[test]
fn clean_twice_ends_in_the_same_state() {
    let start = ArtifactState { working_clone: true, fixture_dir: true, hash_marker: true };
    let plan = clean();
    let (once, verdict1) = simulate(&plan, &vec![true], start);
    let (twice, verdict2) = simulate(&plan, &vec![true], once);
    assert_eq!(verdict1, Ok(()));
    assert_eq!(verdict2, Ok(()));
    assert_eq!(once, twice);
    assert_eq!(once, absent());
}

#[test]
fn force_update_twice_fails_on_the_second_clone() {
    let plan = update_conformance_tests();
    let good = vec![true; 5];
    let (mid, verdict1) = simulate(&plan, &good, absent());
    assert_eq!(verdict1, Ok(()));
    assert!(mid.working_clone);
    let (end, verdict2) = simulate(&plan, &good, mid);
    assert_eq!(verdict2, Err(SyncError::CloneFailed));
    assert_eq!(end, mid);
}

#[test]
fn a_full_update_leaves_every_artifact_present() {
    let plan = update();
    let start = ArtifactState { working_clone: true, fixture_dir: false, hash_marker: true };
    let (end, verdict) = simulate(&plan, &vec![true; 7], start);
    assert_eq!(verdict, Ok(()));
    assert_eq!(
        end,
        ArtifactState { working_clone: true, fixture_dir: true, hash_marker: true }
    );
}

#[test]
fn copy_without_a_clone_fails_and_changes_nothing() {
    // Scenario: the working clone is absent, so the copy's source is missing;
    // the run fails with the copy error and no fixture directory appears.
    let plan = copy_conformance_tests();
    let (end, verdict) = simulate(&plan, &vec![true], absent());
    assert_eq!(verdict, Err(SyncError::CopyFailed));
    assert_eq!(end, absent());
    assert!(!end.fixture_dir);
}

#[test]
fn generate_hash_without_a_clone_still_writes_the_marker() {
    // Scenario: the working clone is absent, so the revision query fails, but
    // its status is discarded; the run succeeds and the marker file is
    // written with whatever (empty) output was captured.
    let plan = generate_current_hash();
    let (end, verdict) = simulate(&plan, &vec![true, true], absent());
    assert_eq!(verdict, Ok(()));
    assert!(end.hash_marker);
    assert!(!end.working_clone);
}

#[test]
fn each_error_carries_its_static_message() {
    assert_eq!(SyncError::CleanupFailed.message(), "failed to delete temp directory");
    assert_eq!(SyncError::CloneFailed.message(), "failed to clone TypeScript repository");
    assert_eq!(
        SyncError::FetchFailed.message(),
        "failed to fetch everything from TypeScript repository"
    );
    assert_eq!(SyncError::CheckoutFailed.message(), "failed to checkout repository");
    assert_eq!(SyncError::WriteFailed.message(), "failed to write the current hash file");
    assert_eq!(SyncError::CopyFailed.message(), "failed to copy conformance test files");
}

#[test]
fn the_target_identity_is_fixed() {
    assert_eq!(repo_url(), "https://github.com/microsoft/TypeScript");
    assert_eq!(target_version(), "v4.7.4");
    assert_eq!(hash_file_path(), "./CURRENT_HASH");
}

#[test]
fn each_command_step_has_its_documented_command_line() {
    assert_eq!(program_of(Action::RemoveArtifacts), "rm");
    assert_eq!(
        args_of(Action::RemoveArtifacts),
        vec!["-rvf", "temp", "conformance", "./CURRENT_HASH"]
    );
    assert_eq!(cwd_of(Action::RemoveArtifacts), None);

    assert_eq!(program_of(Action::CloneRepo), "git");
    assert_eq!(
        args_of(Action::CloneRepo),
        vec!["clone", "https://github.com/microsoft/TypeScript", "temp/typescript"]
    );
    assert_eq!(cwd_of(Action::CloneRepo), None);

    assert_eq!(program_of(Action::FetchAll), "git");
    assert_eq!(args_of(Action::FetchAll), vec!["fetch", "--all", "--tags", "--prune"]);
    assert_eq!(cwd_of(Action::FetchAll), Some("./temp/typescript"));

    assert_eq!(program_of(Action::CheckoutTag), "git");
    assert_eq!(
        args_of(Action::CheckoutTag),
        vec!["checkout", "tags/v4.7.4", "-b", "__workstation__"]
    );
    assert_eq!(cwd_of(Action::CheckoutTag), Some("./temp/typescript"));

    assert_eq!(program_of(Action::QueryHead), "git");
    assert_eq!(args_of(Action::QueryHead), vec!["rev-parse", "HEAD"]);
    assert_eq!(cwd_of(Action::QueryHead), Some("./temp/typescript"));

    assert_eq!(program_of(Action::CopyFixtures), "cp");
    assert_eq!(
        args_of(Action::CopyFixtures),
        vec!["-rv", "./temp/typescript/tests/cases/conformance", "conformance"]
    );
    assert_eq!(cwd_of(Action::CopyFixtures), None);

    assert_eq!(cwd_of(Action::WriteHashFile), None);
}
