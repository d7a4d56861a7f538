//! The Service Operation Executor and the whole service-mode session,
//! driven against a mock command runner that counts every request.

use tickle::run::{sys_argv, OpError, RunOutcome, SysRequestKind};
use tickle::cli::TickleCommand;
use tickle::service::{ExecStep, ServiceExecutor, ServiceOp, ServiceSession, SessionStep};
use tickle::state::ServiceState;

fn ok_exit() -> RunOutcome {
    RunOutcome::Exited { success: true, stdout: Vec::new(), stderr: Vec::new() }
}

fn fail_exit(stderr: &[u8]) -> RunOutcome {
    RunOutcome::Exited { success: false, stdout: Vec::new(), stderr: stderr.to_vec() }
}

fn out_exit(stdout: &[u8]) -> RunOutcome {
    RunOutcome::Exited { success: true, stdout: stdout.to_vec(), stderr: Vec::new() }
}

#[test]
fn stop_start_skips_start_when_stop_fails() {
    let mut issued: Vec<SysRequestKind> = Vec::new();
    let mut executor = ServiceExecutor::new(ServiceOp::StopStart);
    issued.push(executor.pending_request());
    let step = executor.absorb(fail_exit(b"boom"));
    match step {
        ExecStep::Finished(Err(OpError::SysCommandFailed { request, stderr })) => {
            assert_eq!(request, SysRequestKind::Stop);
            assert_eq!(stderr, b"boom".to_vec());
        }
        other => panic!("expected a stop failure, got {:?}", other),
    }
    // Only the stop command was ever requested.
    assert_eq!(issued, vec![SysRequestKind::Stop]);
    assert_eq!(issued.iter().filter(|k| **k == SysRequestKind::Start).count(), 0);
}

#[test]
fn stop_start_runs_stop_then_start() {
    let mut issued: Vec<SysRequestKind> = Vec::new();
    let mut executor = ServiceExecutor::new(ServiceOp::StopStart);
    issued.push(executor.pending_request());
    match executor.absorb(ok_exit()) {
        ExecStep::Continue(k) => issued.push(k),
        other => panic!("expected the start phase, got {:?}", other),
    }
    match executor.absorb(ok_exit()) {
        ExecStep::Finished(Ok(())) => {}
        other => panic!("expected success, got {:?}", other),
    }
    assert_eq!(issued, vec![SysRequestKind::Stop, SysRequestKind::Start]);
}

#[test]
fn stop_start_reports_start_failure_after_successful_stop() {
    let mut executor = ServiceExecutor::new(ServiceOp::StopStart);
    assert!(matches!(executor.absorb(ok_exit()), ExecStep::Continue(SysRequestKind::Start)));
    match executor.absorb(fail_exit(b"cannot start")) {
        ExecStep::Finished(Err(OpError::SysCommandFailed { request, .. })) => {
            assert_eq!(request, SysRequestKind::Start);
        }
        other => panic!("expected a start failure, got {:?}", other),
    }
}

#[test]
fn single_operations_issue_one_command() {
    for (op, want) in [
        (ServiceOp::Start, SysRequestKind::Start),
        (ServiceOp::Stop, SysRequestKind::Stop),
        (ServiceOp::Restart, SysRequestKind::Restart),
    ] {
        let mut executor = ServiceExecutor::new(op);
        assert_eq!(executor.pending_request(), want);
        assert!(matches!(executor.absorb(ok_exit()), ExecStep::Finished(Ok(()))));
    }
}

#[test]
fn launch_failure_fails_the_operation() {
    let mut executor = ServiceExecutor::new(ServiceOp::Restart);
    match executor.absorb(RunOutcome::LaunchFailure) {
        ExecStep::Finished(Err(OpError::SysLaunch { request })) => {
            assert_eq!(request, SysRequestKind::Restart);
        }
        other => panic!("expected a launch failure, got {:?}", other),
    }
}

/// Scenario: service `foo`, unit lookup fails (not found), so the resolver
/// picks stop-then-start and the executor issues stop, then start, against
/// `foo`.
#[test]
fn tickle_falls_back_to_stop_start_when_unit_is_unknown() {
    let name = b"foo".to_vec();
    let mut session = ServiceSession::new(TickleCommand::Tickle, false);
    let mut issued: Vec<Vec<Vec<u8>>> = Vec::new();
    // Availability probe launches fine.
    let mut step = session.absorb(ok_exit());
    let mut result = None;
    let mut scripted = vec![
        // is-active: diagnostic only
        out_exit(b"inactive\n"),
        // cat foo: unit not found
        fail_exit(b"No files found for foo.service."),
        // stop foo
        ok_exit(),
        // start foo
        ok_exit(),
    ]
    .into_iter();
    loop {
        match step {
            SessionStep::Request(kind) => {
                issued.push(sys_argv(kind, &name));
                step = session.absorb(scripted.next().expect("script exhausted"));
            }
            SessionStep::Finished(r) => {
                result = Some(r);
                break;
            }
        }
    }
    assert_eq!(result, Some(Ok(())));
    assert_eq!(session.observed, Some(ServiceState::Inactive));
    let argv: Vec<Vec<Vec<u8>>> = issued;
    assert_eq!(
        argv,
        vec![
            vec![b"is-active".to_vec(), b"foo".to_vec()],
            vec![b"cat".to_vec(), b"foo".to_vec()],
            vec![b"stop".to_vec(), b"foo".to_vec()],
            vec![b"start".to_vec(), b"foo".to_vec()],
        ]
    );
}

#[test]
fn tickle_uses_direct_restart_when_capability_is_affirmed() {
    let mut session = ServiceSession::new(TickleCommand::Tickle, false);
    let mut requests = Vec::new();
    let mut step = session.absorb(ok_exit());
    let mut scripted = vec![
        out_exit(b"active\n"),
        ok_exit(),                         // cat: unit exists
        out_exit(b"CanRestart=yes\n"),     // capability probe
        ok_exit(),                         // restart
    ]
    .into_iter();
    let result = loop {
        match step {
            SessionStep::Request(kind) => {
                requests.push(kind);
                step = session.absorb(scripted.next().expect("script exhausted"));
            }
            SessionStep::Finished(r) => break r,
        }
    };
    assert_eq!(result, Ok(()));
    assert_eq!(
        requests,
        vec![
            SysRequestKind::IsActive,
            SysRequestKind::CatUnit,
            SysRequestKind::ShowCanRestart,
            SysRequestKind::Restart,
        ]
    );
}

#[test]
fn forced_stop_start_skips_resolution() {
    let mut session = ServiceSession::new(TickleCommand::Tickle, true);
    let mut requests = Vec::new();
    let mut step = session.absorb(ok_exit());
    let mut scripted = vec![out_exit(b"active\n"), ok_exit(), ok_exit()].into_iter();
    let result = loop {
        match step {
            SessionStep::Request(kind) => {
                requests.push(kind);
                step = session.absorb(scripted.next().expect("script exhausted"));
            }
            SessionStep::Finished(r) => break r,
        }
    };
    assert_eq!(result, Ok(()));
    assert_eq!(
        requests,
        vec![SysRequestKind::IsActive, SysRequestKind::Stop, SysRequestKind::Start]
    );
}

#[test]
fn unavailable_control_plane_fails_before_any_operation() {
    let mut session = ServiceSession::new(TickleCommand::Tickle, false);
    match session.absorb(RunOutcome::LaunchFailure) {
        SessionStep::Finished(Err(OpError::Unavailable)) => {}
        other => panic!("expected unavailability, got {:?}", other),
    }
}

#[test]
fn plain_start_goes_straight_to_the_start_command() {
    let mut session = ServiceSession::new(TickleCommand::Start, false);
    match session.absorb(ok_exit()) {
        SessionStep::Request(SysRequestKind::Start) => {}
        other => panic!("expected the start command, got {:?}", other),
    }
    match session.absorb(fail_exit(b"unit missing")) {
        SessionStep::Finished(Err(OpError::SysCommandFailed { request, stderr })) => {
            assert_eq!(request, SysRequestKind::Start);
            assert_eq!(stderr, b"unit missing".to_vec());
        }
        other => panic!("expected a start failure, got {:?}", other),
    }
}

#[test]
fn plain_stop_goes_straight_to_the_stop_command() {
    let mut session = ServiceSession::new(TickleCommand::Stop, false);
    assert!(matches!(session.absorb(ok_exit()), SessionStep::Request(SysRequestKind::Stop)));
    assert!(matches!(session.absorb(ok_exit()), SessionStep::Finished(Ok(()))));
}

#[test]
fn sys_argv_renders_each_request() {
    let unit = b"nginx".to_vec();
    assert_eq!(sys_argv(SysRequestKind::Version, &unit), vec![b"--version".to_vec()]);
    assert_eq!(
        sys_argv(SysRequestKind::ShowCanRestart, &unit),
        vec![b"show".to_vec(), b"nginx".to_vec(), b"--property=CanRestart".to_vec()]
    );
    assert_eq!(
        sys_argv(SysRequestKind::ShowRemainAfterExit, &unit),
        vec![b"show".to_vec(), b"nginx".to_vec(), b"--property=RemainAfterExit".to_vec()]
    );
    assert_eq!(
        sys_argv(SysRequestKind::Restart, &unit),
        vec![b"restart".to_vec(), b"nginx".to_vec()]
    );
}
