//! Service Operation Executor: carries out start, stop, restart and
//! stop-then-start against a named init-system unit, and the session that
//! composes a whole service-mode operation.
//!
//! The executor is a step machine over command outcomes.  Its one composite
//! operation, stop-then-start, is deliberately not atomic: when the stop
//! phase fails, the start phase is never requested and the whole operation
//! reports the stop error; when stop succeeds and start fails, the
//! operation reports the start error and the service may be left stopped.

use vstd::prelude::*;
use crate::cli::TickleCommand;
use crate::run::{OpError, RunOutcome, SysRequestKind};
use crate::state::{state_of, ServiceState};
use crate::strategy::{
    probe_request, resolver_step_spec, strategy_of, Resolver, ResolverPhase, ResolveStep,
    RestartStrategy,
};

verus! {

/// One operation against a named service.
#[derive(Clone, Copy, Debug, PartialEq, Eq, Structural)]
pub enum ServiceOp {
    Start,
    Stop,
    Restart,
    StopStart,
}

/// The first (and for the simple operations only) command an operation
/// issues.
pub open spec fn first_request_spec(op: ServiceOp) -> SysRequestKind {
    match op {
        ServiceOp::Start => SysRequestKind::Start,
        ServiceOp::Stop => SysRequestKind::Stop,
        ServiceOp::Restart => SysRequestKind::Restart,
        ServiceOp::StopStart => SysRequestKind::Stop,
    }
}

/// What the executor does after absorbing one command outcome: issue the
/// next command, or finish with the operation's result.
#[derive(Debug, PartialEq, Eq)]
pub enum ExecStep {
    Continue(SysRequestKind),
    Finished(Result<(), OpError>),
}

/// The executor's decision table.  `awaiting` is the command whose outcome
/// is being absorbed.
pub open spec fn executor_step_spec(
    op: ServiceOp,
    awaiting: SysRequestKind,
    o: RunOutcome,
) -> ExecStep {
    match o {
        RunOutcome::LaunchFailure => ExecStep::Finished(
            Err(OpError::SysLaunch { request: awaiting }),
        ),
        RunOutcome::Exited { success, stdout, stderr } => if !success {
            ExecStep::Finished(Err(OpError::SysCommandFailed { request: awaiting, stderr }))
        } else if op is StopStart && awaiting is Stop {
            ExecStep::Continue(SysRequestKind::Start)
        } else {
            ExecStep::Finished(Ok(()))
        },
    }
}

/// Step machine that carries one service operation out.
pub struct ServiceExecutor {
    pub op: ServiceOp,
    /// The command whose outcome comes next.
    pub awaiting: SysRequestKind,
}

impl ServiceExecutor {
    /// Begins an operation; the caller must run [`Self::pending_request`]
    /// first.
    pub fn new(op: ServiceOp) -> (r: ServiceExecutor)
        ensures
            r.op == op,
            r.awaiting == first_request_spec(op),
    {
        let awaiting = match op {
            ServiceOp::Start => SysRequestKind::Start,
            ServiceOp::Stop => SysRequestKind::Stop,
            ServiceOp::Restart => SysRequestKind::Restart,
            ServiceOp::StopStart => SysRequestKind::Stop,
        };
        ServiceExecutor { op, awaiting }
    }

    /// The command the caller must run next.
    pub fn pending_request(&self) -> (k: SysRequestKind)
        ensures
            k == self.awaiting,
    {
        self.awaiting
    }

    /// Absorbs the outcome of the pending command; either the next command
    /// to run, or the operation's result.
    pub fn absorb(&mut self, o: RunOutcome) -> (step: ExecStep)
        ensures
            step == executor_step_spec(old(self).op, old(self).awaiting, o),
            final(self).op == old(self).op,
            final(self).awaiting == (match step {
                ExecStep::Continue(k) => k,
                ExecStep::Finished(_) => old(self).awaiting,
            }),
    {
        match o {
            RunOutcome::LaunchFailure => {
                ExecStep::Finished(Err(OpError::SysLaunch { request: self.awaiting }))
            },
            RunOutcome::Exited { success, stdout: _, stderr } => {
                if !success {
                    ExecStep::Finished(
                        Err(OpError::SysCommandFailed { request: self.awaiting, stderr }),
                    )
                } else {
                    let two_phase = match self.op {
                        ServiceOp::StopStart => true,
                        _ => false,
                    };
                    let at_stop = match self.awaiting {
                        SysRequestKind::Stop => true,
                        _ => false,
                    };
                    if two_phase && at_stop {
                        self.awaiting = SysRequestKind::Start;
                        ExecStep::Continue(SysRequestKind::Start)
                    } else {
                        ExecStep::Finished(Ok(()))
                    }
                }
            },
        }
    }
}

/// Stop-then-start is not atomic: a stop outcome that is not a success
/// finishes the operation with an error, so the start command is never
/// requested; only a successful stop leads to exactly the start command.
pub proof fn lemma_stop_start_not_atomic(o: RunOutcome)
    ensures
        !o.is_success() ==> (executor_step_spec(ServiceOp::StopStart, SysRequestKind::Stop, o)
            matches ExecStep::Finished(r) && r is Err),
        (match executor_step_spec(ServiceOp::StopStart, SysRequestKind::Stop, o) {
            ExecStep::Continue(k) => k == SysRequestKind::Start && o.is_success(),
            ExecStep::Finished(_) => true,
        }),
{
}

/// Marker for the service backend; operations hang off it as methods, as
/// the surrounding binary uses them.
pub struct ServiceManager;

impl ServiceManager {
    /// A fresh, stateless manager.
    pub fn new() -> (r: ServiceManager)
    {
        ServiceManager
    }

    /// The strategy that a capability verdict calls for: direct restart
    /// when the service can take it, stop-then-start otherwise.
    pub fn determine_restart_strategy(&self, can_restart: bool) -> (s: RestartStrategy)
        ensures
            s == strategy_of(can_restart),
    {
        if can_restart {
            RestartStrategy::Restart
        } else {
            RestartStrategy::StopStart
        }
    }
}

/// Where a service-mode session stands.
pub enum SessionPhase {
    /// Awaiting the availability probe of the control plane itself.
    CheckingAvailability,
    /// Awaiting the diagnostic `is-active` answer (tickle only).
    InspectingState,
    /// Resolving the restart strategy (tickle only, unless forced).
    Resolving(ResolverPhase),
    /// Carrying the chosen operation out.
    Executing { op: ServiceOp, awaiting: SysRequestKind },
}

/// What a session does after absorbing one outcome.
#[derive(Debug, PartialEq, Eq)]
pub enum SessionStep {
    Request(SysRequestKind),
    Finished(Result<(), OpError>),
}

/// The operation a session will execute once the strategy is known.
pub open spec fn command_op(c: TickleCommand, strategy: RestartStrategy) -> ServiceOp {
    match c {
        TickleCommand::Start => ServiceOp::Start,
        TickleCommand::Stop => ServiceOp::Stop,
        TickleCommand::Tickle => match strategy {
            RestartStrategy::Restart => ServiceOp::Restart,
            RestartStrategy::StopStart => ServiceOp::StopStart,
        },
    }
}

/// A whole service-mode operation: availability check, then (for tickle) a
/// diagnostic state query and strategy resolution, then execution.  The
/// surrounding binary runs one control-plane command per step and feeds the
/// outcome back.
pub struct ServiceSession {
    pub command: TickleCommand,
    pub force_stop_start: bool,
    pub phase: SessionPhase,
    /// The state observed by the diagnostic query, for display.
    pub observed: Option<ServiceState>,
}

/// The session's decision table: the new phase, the observed state and the
/// step that one outcome leads to.
pub open spec fn session_step_spec(s: ServiceSession, o: RunOutcome) -> (ServiceSession, SessionStep) {
    match s.phase {
        SessionPhase::CheckingAvailability => {
            if o is LaunchFailure {
                (s, SessionStep::Finished(Err(OpError::Unavailable)))
            } else {
                match s.command {
                    TickleCommand::Tickle => (
                        ServiceSession { phase: SessionPhase::InspectingState, ..s },
                        SessionStep::Request(SysRequestKind::IsActive),
                    ),
                    _ => {
                        let op = command_op(s.command, RestartStrategy::Restart);
                        (
                            ServiceSession {
                                phase: SessionPhase::Executing {
                                    op,
                                    awaiting: first_request_spec(op),
                                },
                                ..s
                            },
                            SessionStep::Request(first_request_spec(op)),
                        )
                    },
                }
            }
        },
        SessionPhase::InspectingState => {
            match o {
                RunOutcome::LaunchFailure => (
                    s,
                    SessionStep::Finished(
                        Err(OpError::SysLaunch { request: SysRequestKind::IsActive }),
                    ),
                ),
                RunOutcome::Exited { success, stdout, stderr } => {
                    let observed = Some(state_of(stdout@));
                    if s.force_stop_start {
                        (
                            ServiceSession {
                                phase: SessionPhase::Executing {
                                    op: ServiceOp::StopStart,
                                    awaiting: SysRequestKind::Stop,
                                },
                                observed,
                                ..s
                            },
                            SessionStep::Request(SysRequestKind::Stop),
                        )
                    } else {
                        (
                            ServiceSession {
                                phase: SessionPhase::Resolving(ResolverPhase::CheckUnit),
                                observed,
                                ..s
                            },
                            SessionStep::Request(SysRequestKind::CatUnit),
                        )
                    }
                },
            }
        },
        SessionPhase::Resolving(rp) => {
            match resolver_step_spec(rp, o) {
                ResolveStep::Probe(p) => (
                    ServiceSession { phase: SessionPhase::Resolving(p), ..s },
                    SessionStep::Request(probe_request(p)),
                ),
                ResolveStep::Done(Err(e)) => (s, SessionStep::Finished(Err(e))),
                ResolveStep::Done(Ok(can)) => {
                    let op = command_op(TickleCommand::Tickle, strategy_of(can));
                    (
                        ServiceSession {
                            phase: SessionPhase::Executing {
                                op,
                                awaiting: first_request_spec(op),
                            },
                            ..s
                        },
                        SessionStep::Request(first_request_spec(op)),
                    )
                },
            }
        },
        SessionPhase::Executing { op, awaiting } => {
            match executor_step_spec(op, awaiting, o) {
                ExecStep::Continue(k) => (
                    ServiceSession { phase: SessionPhase::Executing { op, awaiting: k }, ..s },
                    SessionStep::Request(k),
                ),
                ExecStep::Finished(r) => (s, SessionStep::Finished(r)),
            }
        },
    }
}

impl ServiceSession {
    /// Opens a session; the caller must first run the availability probe
    /// ([`SysRequestKind::Version`]) and absorb its outcome.
    pub fn new(command: TickleCommand, force_stop_start: bool) -> (r: ServiceSession)
        ensures
            r.command == command,
            r.force_stop_start == force_stop_start,
            r.phase is CheckingAvailability,
            r.observed is None,
    {
        ServiceSession {
            command,
            force_stop_start,
            phase: SessionPhase::CheckingAvailability,
            observed: None,
        }
    }

    /// Absorbs the outcome of the last requested command and says what to
    /// do next.
    pub fn absorb(&mut self, o: RunOutcome) -> (step: SessionStep)
        ensures
            (*final(self), step) == session_step_spec(*old(self), o),
    {
        match &self.phase {
            SessionPhase::CheckingAvailability => {
                match o {
                    RunOutcome::LaunchFailure => SessionStep::Finished(Err(OpError::Unavailable)),
                    RunOutcome::Exited { .. } => {
                        match self.command {
                            TickleCommand::Tickle => {
                                self.phase = SessionPhase::InspectingState;
                                SessionStep::Request(SysRequestKind::IsActive)
                            },
                            TickleCommand::Start => {
                                self.phase = SessionPhase::Executing {
                                    op: ServiceOp::Start,
                                    awaiting: SysRequestKind::Start,
                                };
                                SessionStep::Request(SysRequestKind::Start)
                            },
                            TickleCommand::Stop => {
                                self.phase = SessionPhase::Executing {
                                    op: ServiceOp::Stop,
                                    awaiting: SysRequestKind::Stop,
                                };
                                SessionStep::Request(SysRequestKind::Stop)
                            },
                        }
                    },
                }
            },
            SessionPhase::InspectingState => {
                match o {
                    RunOutcome::LaunchFailure => SessionStep::Finished(
                        Err(OpError::SysLaunch { request: SysRequestKind::IsActive }),
                    ),
                    RunOutcome::Exited { success: _, stdout, stderr: _ } => {
                        self.observed = Some(crate::state::get_state(&stdout));
                        if self.force_stop_start {
                            self.phase = SessionPhase::Executing {
                                op: ServiceOp::StopStart,
                                awaiting: SysRequestKind::Stop,
                            };
                            SessionStep::Request(SysRequestKind::Stop)
                        } else {
                            self.phase = SessionPhase::Resolving(ResolverPhase::CheckUnit);
                            SessionStep::Request(SysRequestKind::CatUnit)
                        }
                    },
                }
            },
            SessionPhase::Resolving(rp) => {
                let mut resolver = Resolver { phase: *rp };
                match resolver.absorb(o) {
                    ResolveStep::Probe(p) => {
                        self.phase = SessionPhase::Resolving(p);
                        SessionStep::Request(resolver.pending_request())
                    },
                    ResolveStep::Done(Err(e)) => SessionStep::Finished(Err(e)),
                    ResolveStep::Done(Ok(can)) => {
                        if can {
                            self.phase = SessionPhase::Executing {
                                op: ServiceOp::Restart,
                                awaiting: SysRequestKind::Restart,
                            };
                            SessionStep::Request(SysRequestKind::Restart)
                        } else {
                            self.phase = SessionPhase::Executing {
                                op: ServiceOp::StopStart,
                                awaiting: SysRequestKind::Stop,
                            };
                            SessionStep::Request(SysRequestKind::Stop)
                        }
                    },
                }
            },
            SessionPhase::Executing { op, awaiting } => {
                let mut executor = ServiceExecutor { op: *op, awaiting: *awaiting };
                match executor.absorb(o) {
                    ExecStep::Continue(k) => {
                        self.phase = SessionPhase::Executing { op: executor.op, awaiting: k };
                        SessionStep::Request(k)
                    },
                    ExecStep::Finished(r) => SessionStep::Finished(r),
                }
            },
        }
    }
}

/// Which phases a session with a given command can reach: only the
/// composite tickle inspects state or resolves a strategy, and the
/// executing operation always belongs to the session's command.
pub open spec fn session_wf(s: ServiceSession) -> bool {
    match s.phase {
        SessionPhase::CheckingAvailability => true,
        SessionPhase::InspectingState => s.command is Tickle,
        SessionPhase::Resolving(_) => s.command is Tickle,
        SessionPhase::Executing { op, awaiting } => {
            &&& (match s.command {
                TickleCommand::Start => op is Start,
                TickleCommand::Stop => op is Stop,
                TickleCommand::Tickle => op is Restart || op is StopStart,
            })
            &&& (op is Start ==> awaiting is Start)
            &&& (op is Stop ==> awaiting is Stop)
            &&& (op is Restart ==> awaiting is Restart)
            &&& (op is StopStart ==> awaiting is Stop || awaiting is Start)
        },
    }
}

/// A session never crosses its command: a plain `start` session only ever
/// asks for the `start` command, and a plain `stop` session only for
/// `stop`, whatever the outcomes were.
pub proof fn lemma_session_stays_on_command(s: ServiceSession, o: RunOutcome)
    requires
        session_wf(s),
    ensures
        session_wf(session_step_spec(s, o).0),
        s.command is Start ==> (match session_step_spec(s, o).1 {
            SessionStep::Request(k) => k is Start,
            SessionStep::Finished(_) => true,
        }),
        s.command is Stop ==> (match session_step_spec(s, o).1 {
            SessionStep::Request(k) => k is Stop,
            SessionStep::Finished(_) => true,
        }),
{
}

} // verus!
