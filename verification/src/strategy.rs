//! Restart Strategy Resolver: decides whether a service can take a direct
//! `restart`, or must be stopped and started in two steps.
//!
//! The decision is layered: a unit the control plane cannot find cannot be
//! restarted directly; an affirmative capability answer settles it; a
//! one-shot unit is restartable only when it keeps state after exit; every
//! other type gets the permissive default (direct restart).  Probing is
//! advisory: a probe that runs but answers nothing falls through toward the
//! default, and only a probe that cannot be launched at all fails the
//! resolution.
//!
//! The resolver is a step machine: it asks the surrounding binary to run one
//! control-plane query at a time and absorbs the outcome, so the decision
//! itself is a pure function of the probe answers.

use vstd::prelude::*;
use crate::run::{OpError, RunOutcome, SysRequestKind};
use crate::text::contains_seq;
use crate::words::{w_can_restart_yes, w_remain_after_exit_yes, w_type_oneshot};

verus! {

/// How a service will be bounced: one direct `restart`, or `stop` then
/// `start`.
#[derive(Clone, Copy, Debug, PartialEq, Eq, Structural)]
pub enum RestartStrategy {
    Restart,
    StopStart,
}

/// The strategy that a capability verdict stands for.
pub open spec fn strategy_of(can_restart: bool) -> RestartStrategy {
    if can_restart {
        RestartStrategy::Restart
    } else {
        RestartStrategy::StopStart
    }
}

/// Which probe's outcome the resolver is waiting for.
#[derive(Clone, Copy, Debug, PartialEq, Eq, Structural)]
pub enum ResolverPhase {
    /// Awaiting `cat <unit>`: does the unit exist at all?
    CheckUnit,
    /// Awaiting `show --property=CanRestart`.
    CheckCanRestart,
    /// Awaiting `show --property=Type`.
    CheckType,
    /// Awaiting `show --property=RemainAfterExit`.
    CheckRemain,
}

/// The control-plane query that a resolver phase waits on.
pub open spec fn probe_request(phase: ResolverPhase) -> SysRequestKind {
    match phase {
        ResolverPhase::CheckUnit => SysRequestKind::CatUnit,
        ResolverPhase::CheckCanRestart => SysRequestKind::ShowCanRestart,
        ResolverPhase::CheckType => SysRequestKind::ShowType,
        ResolverPhase::CheckRemain => SysRequestKind::ShowRemainAfterExit,
    }
}

/// What the resolver does after absorbing one probe outcome: run another
/// probe, or conclude with the capability verdict (or a launch error).
#[derive(Debug, PartialEq, Eq)]
pub enum ResolveStep {
    Probe(ResolverPhase),
    Done(Result<bool, OpError>),
}

/// The resolver's whole decision table: what one probe outcome, absorbed in
/// a given phase, leads to.
pub open spec fn resolver_step_spec(phase: ResolverPhase, o: RunOutcome) -> ResolveStep {
    match o {
        RunOutcome::LaunchFailure => ResolveStep::Done(
            Err(OpError::SysLaunch { request: probe_request(phase) }),
        ),
        RunOutcome::Exited { success, stdout, stderr } => match phase {
            ResolverPhase::CheckUnit => if success {
                ResolveStep::Probe(ResolverPhase::CheckCanRestart)
            } else {
                ResolveStep::Done(Ok(false))
            },
            ResolverPhase::CheckCanRestart => if success && contains_seq(
                stdout@,
                w_can_restart_yes(),
            ) {
                ResolveStep::Done(Ok(true))
            } else {
                ResolveStep::Probe(ResolverPhase::CheckType)
            },
            ResolverPhase::CheckType => if !success {
                ResolveStep::Done(Ok(true))
            } else if contains_seq(stdout@, w_type_oneshot()) {
                ResolveStep::Probe(ResolverPhase::CheckRemain)
            } else {
                ResolveStep::Done(Ok(true))
            },
            ResolverPhase::CheckRemain => ResolveStep::Done(
                Ok(contains_seq(stdout@, w_remain_after_exit_yes())),
            ),
        },
    }
}

/// Step machine that resolves whether one service can be restarted
/// directly.  `phase` is the probe whose outcome comes next.
pub struct Resolver {
    pub phase: ResolverPhase,
}

impl Resolver {
    /// A fresh resolution, starting with the unit-existence probe.
    pub fn new() -> (r: Resolver)
        ensures
            r.phase == ResolverPhase::CheckUnit,
    {
        Resolver { phase: ResolverPhase::CheckUnit }
    }

    /// The control-plane request the caller must run next.
    pub fn pending_request(&self) -> (k: SysRequestKind)
        ensures
            k == probe_request(self.phase),
    {
        match self.phase {
            ResolverPhase::CheckUnit => SysRequestKind::CatUnit,
            ResolverPhase::CheckCanRestart => SysRequestKind::ShowCanRestart,
            ResolverPhase::CheckType => SysRequestKind::ShowType,
            ResolverPhase::CheckRemain => SysRequestKind::ShowRemainAfterExit,
        }
    }

    /// Absorbs the outcome of the pending probe and either asks for the
    /// next one or concludes.
    pub fn absorb(&mut self, o: RunOutcome) -> (step: ResolveStep)
        ensures
            step == resolver_step_spec(old(self).phase, o),
            final(self).phase == (match step {
                ResolveStep::Probe(p) => p,
                ResolveStep::Done(_) => old(self).phase,
            }),
    {
        match o {
            RunOutcome::LaunchFailure => {
                let k = self.pending_request();
                ResolveStep::Done(Err(OpError::SysLaunch { request: k }))
            },
            RunOutcome::Exited { success, stdout, stderr: _ } => {
                match self.phase {
                    ResolverPhase::CheckUnit => {
                        if success {
                            self.phase = ResolverPhase::CheckCanRestart;
                            ResolveStep::Probe(ResolverPhase::CheckCanRestart)
                        } else {
                            ResolveStep::Done(Ok(false))
                        }
                    },
                    ResolverPhase::CheckCanRestart => {
                        if success && crate::text::contains_bytes(
                            stdout.as_slice(),
                            crate::words::w_can_restart_yes_bytes().as_slice(),
                        ) {
                            ResolveStep::Done(Ok(true))
                        } else {
                            self.phase = ResolverPhase::CheckType;
                            ResolveStep::Probe(ResolverPhase::CheckType)
                        }
                    },
                    ResolverPhase::CheckType => {
                        if !success {
                            ResolveStep::Done(Ok(true))
                        } else if crate::text::contains_bytes(
                            stdout.as_slice(),
                            crate::words::w_type_oneshot_bytes().as_slice(),
                        ) {
                            self.phase = ResolverPhase::CheckRemain;
                            ResolveStep::Probe(ResolverPhase::CheckRemain)
                        } else {
                            ResolveStep::Done(Ok(true))
                        }
                    },
                    ResolverPhase::CheckRemain => {
                        ResolveStep::Done(
                            Ok(
                                crate::text::contains_bytes(
                                    stdout.as_slice(),
                                    crate::words::w_remain_after_exit_yes_bytes().as_slice(),
                                ),
                            ),
                        )
                    },
                }
            },
        }
    }
}

/// Strategy resolution is deterministic in the probe answers, and follows
/// these rules: a unit the control plane does not know forces stop-then-
/// start; an affirmative `CanRestart` answer chooses direct restart; a
/// one-shot unit restarts directly exactly when it remains after exit; any
/// other answered type restarts directly.
pub proof fn lemma_resolver_rules(stdout: Vec<u8>, stderr: Vec<u8>)
    ensures
        resolver_step_spec(
            ResolverPhase::CheckUnit,
            (RunOutcome::Exited { success: false, stdout, stderr }),
        ) == ResolveStep::Done(Ok(false)),
        strategy_of(false) == RestartStrategy::StopStart,
        contains_seq(stdout@, w_can_restart_yes()) ==> resolver_step_spec(
            ResolverPhase::CheckCanRestart,
            (RunOutcome::Exited { success: true, stdout, stderr }),
        ) == ResolveStep::Done(Ok(true)),
        strategy_of(true) == RestartStrategy::Restart,
        contains_seq(stdout@, w_type_oneshot()) ==> resolver_step_spec(
            ResolverPhase::CheckType,
            (RunOutcome::Exited { success: true, stdout, stderr }),
        ) == ResolveStep::Probe(ResolverPhase::CheckRemain),
        !contains_seq(stdout@, w_type_oneshot()) ==> resolver_step_spec(
            ResolverPhase::CheckType,
            (RunOutcome::Exited { success: true, stdout, stderr }),
        ) == ResolveStep::Done(Ok(true)),
        resolver_step_spec(
            ResolverPhase::CheckRemain,
            (RunOutcome::Exited { success: true, stdout, stderr }),
        ) == ResolveStep::Done(Ok(contains_seq(stdout@, w_remain_after_exit_yes()))),
{
}

} // verus!
