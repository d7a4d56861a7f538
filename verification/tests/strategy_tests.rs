//! The Restart Strategy Resolver's decision table, driven through the
//! probe machine with fixed answers.

use tickle::run::{OpError, RunOutcome, SysRequestKind};
use tickle::service::ServiceManager;
use tickle::strategy::{Resolver, ResolverPhase, ResolveStep, RestartStrategy};

fn exited(success: bool, stdout: &[u8]) -> RunOutcome {
    RunOutcome::Exited { success, stdout: stdout.to_vec(), stderr: Vec::new() }
}

/// Runs a resolution against canned probe answers, returning the verdict
/// and the probes that were actually consulted.
fn resolve_with(answers: &[(SysRequestKind, RunOutcome)]) -> (Result<bool, OpError>, Vec<SysRequestKind>) {
    let mut resolver = Resolver::new();
    let mut consulted = Vec::new();
    let mut i = 0;
    loop {
        let pending = resolver.pending_request();
        consulted.push(pending);
        assert_eq!(pending, answers[i].0, "probe order diverged");
        let (_, outcome) = &answers[i];
        let outcome = match outcome {
            RunOutcome::LaunchFailure => RunOutcome::LaunchFailure,
            RunOutcome::Exited { success, stdout, stderr } => RunOutcome::Exited {
                success: *success,
                stdout: stdout.clone(),
                stderr: stderr.clone(),
            },
        };
        i += 1;
        match resolver.absorb(outcome) {
            ResolveStep::Probe(_) => {}
            ResolveStep::Done(v) => return (v, consulted),
        }
    }
}

#[test]
fn unit_not_found_means_stop_start() {
    let (v, consulted) = resolve_with(&[(SysRequestKind::CatUnit, exited(false, b""))]);
    assert_eq!(v, Ok(false));
    assert_eq!(consulted, vec![SysRequestKind::CatUnit]);
    let m = ServiceManager::new();
    assert_eq!(m.determine_restart_strategy(false), RestartStrategy::StopStart);
}

#[test]
fn can_restart_yes_means_restart() {
    let (v, _) = resolve_with(&[
        (SysRequestKind::CatUnit, exited(true, b"[Unit]")),
        (SysRequestKind::ShowCanRestart, exited(true, b"CanRestart=yes\n")),
    ]);
    assert_eq!(v, Ok(true));
    let m = ServiceManager::new();
    assert_eq!(m.determine_restart_strategy(true), RestartStrategy::Restart);
}

#[test]
fn oneshot_with_remain_after_exit_means_restart() {
    let (v, consulted) = resolve_with(&[
        (SysRequestKind::CatUnit, exited(true, b"[Unit]")),
        (SysRequestKind::ShowCanRestart, exited(true, b"CanRestart=no\n")),
        (SysRequestKind::ShowType, exited(true, b"Type=oneshot\n")),
        (SysRequestKind::ShowRemainAfterExit, exited(true, b"RemainAfterExit=yes\n")),
    ]);
    assert_eq!(v, Ok(true));
    assert_eq!(consulted.len(), 4);
}

#[test]
fn oneshot_without_remain_after_exit_means_stop_start() {
    let (v, _) = resolve_with(&[
        (SysRequestKind::CatUnit, exited(true, b"[Unit]")),
        (SysRequestKind::ShowCanRestart, exited(true, b"")),
        (SysRequestKind::ShowType, exited(true, b"Type=oneshot\n")),
        (SysRequestKind::ShowRemainAfterExit, exited(true, b"RemainAfterExit=no\n")),
    ]);
    assert_eq!(v, Ok(false));
}

#[test]
fn oneshot_with_absent_remain_answer_means_stop_start() {
    let (v, _) = resolve_with(&[
        (SysRequestKind::CatUnit, exited(true, b"[Unit]")),
        (SysRequestKind::ShowCanRestart, exited(true, b"")),
        (SysRequestKind::ShowType, exited(true, b"Type=oneshot\n")),
        (SysRequestKind::ShowRemainAfterExit, exited(true, b"")),
    ]);
    assert_eq!(v, Ok(false));
}

#[test]
fn non_oneshot_type_means_restart() {
    let (v, _) = resolve_with(&[
        (SysRequestKind::CatUnit, exited(true, b"[Unit]")),
        (SysRequestKind::ShowCanRestart, exited(true, b"")),
        (SysRequestKind::ShowType, exited(true, b"Type=simple\n")),
    ]);
    assert_eq!(v, Ok(true));
}

#[test]
fn failed_type_probe_falls_back_to_restart() {
    let (v, _) = resolve_with(&[
        (SysRequestKind::CatUnit, exited(true, b"[Unit]")),
        (SysRequestKind::ShowCanRestart, exited(true, b"")),
        (SysRequestKind::ShowType, exited(false, b"")),
    ]);
    assert_eq!(v, Ok(true));
}

#[test]
fn launch_failure_during_probing_is_an_error() {
    let (v, _) = resolve_with(&[
        (SysRequestKind::CatUnit, exited(true, b"[Unit]")),
        (SysRequestKind::ShowCanRestart, RunOutcome::LaunchFailure),
    ]);
    assert_eq!(v, Err(OpError::SysLaunch { request: SysRequestKind::ShowCanRestart }));
}

#[test]
fn resolution_is_deterministic_for_equal_answers() {
    let script = [
        (SysRequestKind::CatUnit, exited(true, b"[Unit]")),
        (SysRequestKind::ShowCanRestart, exited(true, b"CanRestart=yes")),
    ];
    let (v1, c1) = resolve_with(&script);
    let (v2, c2) = resolve_with(&script);
    assert_eq!(v1, v2);
    assert_eq!(c1, c2);
}

#[test]
fn phases_start_at_unit_check() {
    let resolver = Resolver::new();
    assert_eq!(resolver.phase, ResolverPhase::CheckUnit);
    assert_eq!(resolver.pending_request(), SysRequestKind::CatUnit);
}
