//! The Compose Stack Locator's priority order and the Compose Operation
//! Executor's fallback and sequencing, against a counting mock.

use tickle::compose::{
    compose_argv, compose_candidates, compose_label, compose_program, find_compose_file,
    ComposeAction, ComposeCli, ComposeExecutor, ComposeOp, ComposeStep,
};
use tickle::run::{OpError, RunOutcome};

fn ok_exit() -> RunOutcome {
    RunOutcome::Exited { success: true, stdout: Vec::new(), stderr: Vec::new() }
}

fn fail_exit(stderr: &[u8]) -> RunOutcome {
    RunOutcome::Exited { success: false, stdout: Vec::new(), stderr: stderr.to_vec() }
}

#[test]
fn candidates_are_probed_in_priority_order() {
    let names = compose_candidates();
    assert_eq!(
        names,
        vec![
            b"docker-compose.yml".to_vec(),
            b"docker-compose.yaml".to_vec(),
            b"compose.yml".to_vec(),
            b"compose.yaml".to_vec(),
            b"container-compose.yml".to_vec(),
            b"container-compose.yaml".to_vec(),
        ]
    );
}

/// Priority: with both `docker-compose.yml` and `compose.yaml` present, the
/// locator returns `docker-compose.yml`.
#[test]
fn locator_prefers_docker_compose_yml() {
    let present = vec![true, false, false, true, false, false];
    assert_eq!(find_compose_file(&present), Some(b"docker-compose.yml".to_vec()));
}

#[test]
fn locator_returns_nothing_for_an_empty_directory() {
    let present = vec![false; 6];
    assert_eq!(find_compose_file(&present), None);
}

#[test]
fn locator_falls_through_to_later_names() {
    let present = vec![false, false, false, true, false, true];
    assert_eq!(find_compose_file(&present), Some(b"compose.yaml".to_vec()));
}

/// Scenario: a directory with only `compose.yaml`, command `start`: exactly
/// one `up -d` attempt reaches the stack, and never a `down`.
#[test]
fn start_issues_one_up_and_no_down() {
    let present = vec![false, false, false, true, false, false];
    let manifest = find_compose_file(&present).expect("manifest present");
    assert_eq!(manifest, b"compose.yaml".to_vec());

    let mut attempts: Vec<(ComposeCli, ComposeAction)> = Vec::new();
    let mut executor = ComposeExecutor::new(ComposeOp::Up);
    attempts.push(executor.pending());
    let step = executor.absorb(ok_exit());
    assert!(matches!(step, ComposeStep::Finished(Ok(()))));
    assert_eq!(attempts, vec![(ComposeCli::Modern, ComposeAction::Up)]);
    assert_eq!(
        attempts.iter().filter(|(_, a)| *a == ComposeAction::Down).count(),
        0
    );
    assert_eq!(
        compose_argv(ComposeCli::Modern, ComposeAction::Up, &manifest),
        vec![
            b"compose".to_vec(),
            b"-f".to_vec(),
            b"compose.yaml".to_vec(),
            b"up".to_vec(),
            b"-d".to_vec(),
        ]
    );
}

#[test]
fn stop_issues_one_down_and_no_up() {
    let mut attempts: Vec<(ComposeCli, ComposeAction)> = Vec::new();
    let mut executor = ComposeExecutor::new(ComposeOp::Down);
    attempts.push(executor.pending());
    assert!(matches!(executor.absorb(ok_exit()), ComposeStep::Finished(Ok(()))));
    assert_eq!(attempts, vec![(ComposeCli::Modern, ComposeAction::Down)]);
    assert_eq!(attempts.iter().filter(|(_, a)| *a == ComposeAction::Up).count(), 0);
}

#[test]
fn modern_failure_falls_back_to_legacy() {
    let mut executor = ComposeExecutor::new(ComposeOp::Down);
    assert_eq!(executor.pending(), (ComposeCli::Modern, ComposeAction::Down));
    match executor.absorb(fail_exit(b"no such command: compose")) {
        ComposeStep::Run { cli, action } => {
            assert_eq!(cli, ComposeCli::Legacy);
            assert_eq!(action, ComposeAction::Down);
        }
        other => panic!("expected the legacy fallback, got {:?}", other),
    }
    assert!(matches!(executor.absorb(ok_exit()), ComposeStep::Finished(Ok(()))));
}

#[test]
fn modern_launch_failure_also_falls_back_to_legacy() {
    let mut executor = ComposeExecutor::new(ComposeOp::Up);
    assert!(matches!(
        executor.absorb(RunOutcome::LaunchFailure),
        ComposeStep::Run { cli: ComposeCli::Legacy, action: ComposeAction::Up }
    ));
}

#[test]
fn legacy_launch_failure_is_fatal() {
    let mut executor = ComposeExecutor::new(ComposeOp::Up);
    executor.absorb(fail_exit(b""));
    match executor.absorb(RunOutcome::LaunchFailure) {
        ComposeStep::Finished(Err(OpError::ComposeLaunch)) => {}
        other => panic!("expected a launch error, got {:?}", other),
    }
}

#[test]
fn legacy_failure_surfaces_its_own_error() {
    let mut executor = ComposeExecutor::new(ComposeOp::Down);
    executor.absorb(fail_exit(b"modern says no"));
    match executor.absorb(fail_exit(b"legacy says no")) {
        ComposeStep::Finished(Err(OpError::ComposeCommandFailed { stderr })) => {
            assert_eq!(stderr, b"legacy says no".to_vec());
        }
        other => panic!("expected the legacy error, got {:?}", other),
    }
}

#[test]
fn composite_runs_down_then_up() {
    let mut attempts: Vec<(ComposeCli, ComposeAction)> = Vec::new();
    let mut executor = ComposeExecutor::new(ComposeOp::DownUp);
    attempts.push(executor.pending());
    match executor.absorb(ok_exit()) {
        ComposeStep::Run { cli, action } => attempts.push((cli, action)),
        other => panic!("expected the up phase, got {:?}", other),
    }
    assert!(matches!(executor.absorb(ok_exit()), ComposeStep::Finished(Ok(()))));
    assert_eq!(
        attempts,
        vec![
            (ComposeCli::Modern, ComposeAction::Down),
            (ComposeCli::Modern, ComposeAction::Up),
        ]
    );
}

#[test]
fn composite_aborts_when_down_fails_on_both_interfaces() {
    let mut executor = ComposeExecutor::new(ComposeOp::DownUp);
    assert!(matches!(
        executor.absorb(fail_exit(b"m")),
        ComposeStep::Run { cli: ComposeCli::Legacy, action: ComposeAction::Down }
    ));
    match executor.absorb(fail_exit(b"l")) {
        ComposeStep::Finished(Err(OpError::ComposeCommandFailed { stderr })) => {
            assert_eq!(stderr, b"l".to_vec());
        }
        other => panic!("expected the abort, got {:?}", other),
    }
}

#[test]
fn programs_and_argv_differ_by_interface() {
    assert_eq!(compose_program(ComposeCli::Modern), b"docker".to_vec());
    assert_eq!(compose_program(ComposeCli::Legacy), b"docker-compose".to_vec());
    assert_eq!(
        compose_argv(ComposeCli::Legacy, ComposeAction::Down, &b"compose.yml".to_vec()),
        vec![b"-f".to_vec(), b"compose.yml".to_vec(), b"down".to_vec()]
    );
}

#[test]
fn compose_labels_join_directory_and_manifest() {
    assert_eq!(
        compose_label(&b"myapp".to_vec(), &b"compose.yaml".to_vec()),
        b"myapp/compose.yaml".to_vec()
    );
}
