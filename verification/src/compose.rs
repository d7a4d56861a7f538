//! Compose Stack Locator and Compose Operation Executor.
//!
//! The locator picks the first compose manifest present in the working
//! directory, probing a fixed, priority-ordered list of canonical names.
//! The executor brings a stack down or up (or both, for the composite
//! tickle), preferring the modern integrated control interface and falling
//! back to the legacy standalone one when the modern attempt does not
//! succeed.  The composite down-then-up is not atomic: a failed down aborts
//! before up is ever attempted, mirroring the service executor's
//! stop-then-start.

use vstd::prelude::*;
use crate::run::{OpError, RunOutcome};
use crate::text::push_all;
use crate::words::{
    w_compose, w_compose_bytes, w_compose_yaml, w_compose_yaml_bytes, w_compose_yml,
    w_compose_yml_bytes, w_container_compose_yaml, w_container_compose_yaml_bytes,
    w_container_compose_yml, w_container_compose_yml_bytes, w_detached_flag,
    w_detached_flag_bytes, w_docker, w_docker_bytes, w_docker_compose, w_docker_compose_bytes,
    w_docker_compose_yaml, w_docker_compose_yaml_bytes, w_docker_compose_yml,
    w_docker_compose_yml_bytes, w_down, w_down_bytes, w_file_flag, w_file_flag_bytes, w_up,
    w_up_bytes,
};

verus! {

/// How many canonical manifest names are probed.
pub open spec fn candidate_count() -> int {
    6
}

/// The canonical manifest names, in priority order.
pub open spec fn candidate_spec(i: int) -> Seq<u8> {
    if i == 0 {
        w_docker_compose_yml()
    } else if i == 1 {
        w_docker_compose_yaml()
    } else if i == 2 {
        w_compose_yml()
    } else if i == 3 {
        w_compose_yaml()
    } else if i == 4 {
        w_container_compose_yml()
    } else {
        w_container_compose_yaml()
    }
}

/// The candidate manifest names this tool probes for, in the order in
/// which they take priority.
pub fn compose_candidates() -> (r: Vec<Vec<u8>>)
    ensures
        r@.len() == candidate_count(),
        forall|i: int| 0 <= i < candidate_count() ==> r.deep_view()[i] == candidate_spec(i),
{
    let mut r: Vec<Vec<u8>> = Vec::new();
    r.push(w_docker_compose_yml_bytes());
    r.push(w_docker_compose_yaml_bytes());
    r.push(w_compose_yml_bytes());
    r.push(w_compose_yaml_bytes());
    r.push(w_container_compose_yml_bytes());
    r.push(w_container_compose_yaml_bytes());
    r
}

/// The index of the first present candidate at or after `i`.
pub open spec fn first_present_from(present: Seq<bool>, i: int) -> Option<int>
    decreases present.len() - i,
{
    if i < 0 || i >= present.len() {
        None
    } else if present[i] {
        Some(i)
    } else {
        first_present_from(present, i + 1)
    }
}

/// Returns the highest-priority compose manifest that is present, if any.
/// `present[i]` says whether the `i`-th candidate of
/// [`compose_candidates`] exists in the working directory.
pub fn find_compose_file(present: &Vec<bool>) -> (r: Option<Vec<u8>>)
    requires
        present@.len() == candidate_count(),
    ensures
        (match first_present_from(present@, 0) {
            Some(i) => r matches Some(name) && name@ == candidate_spec(i),
            None => r is None,
        }),
{
    let candidates = compose_candidates();
    let n = present.len();
    let mut i: usize = 0;
    while i < n
        invariant
            i <= n,
            n == present@.len(),
            n == candidate_count(),
            candidates@.len() == candidate_count(),
            forall|k: int| 0 <= k < candidate_count() ==> candidates.deep_view()[k]
                == candidate_spec(k),
            first_present_from(present@, 0) == first_present_from(present@, i as int),
        decreases n - i,
    {
        if present[i] {
            assert(candidates.deep_view()[i as int] == candidates@[i as int]@);
            let mut name: Vec<u8> = Vec::new();
            push_all(&mut name, candidates[i].as_slice());
            assert(name@ =~= candidate_spec(i as int));
            return Some(name);
        }
        i += 1;
    }
    None
}

/// One primitive against a compose stack.
#[derive(Clone, Copy, Debug, PartialEq, Eq, Structural)]
pub enum ComposeAction {
    /// `up -d`: bring the stack up, detached.
    Up,
    /// `down`: bring the stack down.
    Down,
}

/// Which control interface an attempt goes through.
#[derive(Clone, Copy, Debug, PartialEq, Eq, Structural)]
pub enum ComposeCli {
    /// The modern integrated interface (a `compose` subcommand).
    Modern,
    /// The legacy standalone interface.
    Legacy,
}

/// One whole compose operation.
#[derive(Clone, Copy, Debug, PartialEq, Eq, Structural)]
pub enum ComposeOp {
    /// Bring the stack up.
    Up,
    /// Bring the stack down.
    Down,
    /// The composite tickle: down, then up.
    DownUp,
}

/// The action a compose operation begins with.
pub open spec fn first_action_spec(op: ComposeOp) -> ComposeAction {
    match op {
        ComposeOp::Up => ComposeAction::Up,
        ComposeOp::Down => ComposeAction::Down,
        ComposeOp::DownUp => ComposeAction::Down,
    }
}

/// What the compose executor does next: run one command through the given
/// interface, or finish.
#[derive(Debug, PartialEq, Eq)]
pub enum ComposeStep {
    Run { cli: ComposeCli, action: ComposeAction },
    Finished(Result<(), OpError>),
}

/// Step machine that carries one compose operation out.  `action` is the
/// phase in flight, `cli` the interface whose outcome comes next.
pub struct ComposeExecutor {
    pub op: ComposeOp,
    pub action: ComposeAction,
    pub cli: ComposeCli,
}

impl ComposeExecutor {
    /// The executor's phase is consistent with its operation.
    pub open spec fn wf(self) -> bool {
        &&& (self.op is Up ==> self.action is Up)
        &&& (self.op is Down ==> self.action is Down)
    }
}

/// Where a finished action leads: the composite operation turns a finished
/// down into a fresh up attempt; everything else is done.
pub open spec fn action_done_spec(s: ComposeExecutor) -> (ComposeExecutor, ComposeStep) {
    if s.op is DownUp && s.action is Down {
        (
            ComposeExecutor { op: s.op, action: ComposeAction::Up, cli: ComposeCli::Modern },
            ComposeStep::Run { cli: ComposeCli::Modern, action: ComposeAction::Up },
        )
    } else {
        (s, ComposeStep::Finished(Ok(())))
    }
}

/// The compose executor's decision table: a successful modern or legacy
/// attempt finishes the action; a modern attempt that does not succeed is
/// retried through the legacy interface; a failed legacy attempt fails the
/// whole operation with that attempt's error.
pub open spec fn compose_step_spec(s: ComposeExecutor, o: RunOutcome) -> (
    ComposeExecutor,
    ComposeStep,
) {
    match s.cli {
        ComposeCli::Modern => {
            if o.is_success() {
                action_done_spec(s)
            } else {
                (
                    ComposeExecutor { cli: ComposeCli::Legacy, ..s },
                    ComposeStep::Run { cli: ComposeCli::Legacy, action: s.action },
                )
            }
        },
        ComposeCli::Legacy => {
            match o {
                RunOutcome::LaunchFailure => (s, ComposeStep::Finished(Err(OpError::ComposeLaunch))),
                RunOutcome::Exited { success, stdout, stderr } => {
                    if success {
                        action_done_spec(s)
                    } else {
                        (s, ComposeStep::Finished(Err(OpError::ComposeCommandFailed { stderr })))
                    }
                },
            }
        },
    }
}

impl ComposeExecutor {
    /// Begins a compose operation; the caller must run the returned
    /// pending request first (see [`Self::pending`]).
    pub fn new(op: ComposeOp) -> (r: ComposeExecutor)
        ensures
            r.op == op,
            r.action == first_action_spec(op),
            r.cli is Modern,
            r.wf(),
    {
        let action = match op {
            ComposeOp::Up => ComposeAction::Up,
            ComposeOp::Down => ComposeAction::Down,
            ComposeOp::DownUp => ComposeAction::Down,
        };
        ComposeExecutor { op, action, cli: ComposeCli::Modern }
    }

    /// The command attempt the caller must run next.
    pub fn pending(&self) -> (r: (ComposeCli, ComposeAction))
        ensures
            r == (self.cli, self.action),
    {
        (self.cli, self.action)
    }

    /// Absorbs the outcome of the pending attempt; either the next attempt
    /// to run, or the operation's result.
    pub fn absorb(&mut self, o: RunOutcome) -> (step: ComposeStep)
        ensures
            (*final(self), step) == compose_step_spec(*old(self), o),
            old(self).wf() ==> final(self).wf(),
    {
        let succeeded = match &o {
            RunOutcome::Exited { success, .. } => *success,
            RunOutcome::LaunchFailure => false,
        };
        match self.cli {
            ComposeCli::Modern => {
                if succeeded {
                    self.action_done()
                } else {
                    self.cli = ComposeCli::Legacy;
                    ComposeStep::Run { cli: ComposeCli::Legacy, action: self.action }
                }
            },
            ComposeCli::Legacy => {
                match o {
                    RunOutcome::LaunchFailure => ComposeStep::Finished(
                        Err(OpError::ComposeLaunch),
                    ),
                    RunOutcome::Exited { success, stdout: _, stderr } => {
                        if success {
                            self.action_done()
                        } else {
                            ComposeStep::Finished(Err(OpError::ComposeCommandFailed { stderr }))
                        }
                    },
                }
            },
        }
    }

    fn action_done(&mut self) -> (step: ComposeStep)
        ensures
            (*final(self), step) == action_done_spec(*old(self)),
    {
        let composite = match self.op {
            ComposeOp::DownUp => true,
            _ => false,
        };
        let at_down = match self.action {
            ComposeAction::Down => true,
            _ => false,
        };
        if composite && at_down {
            self.action = ComposeAction::Up;
            self.cli = ComposeCli::Modern;
            ComposeStep::Run { cli: ComposeCli::Modern, action: ComposeAction::Up }
        } else {
            ComposeStep::Finished(Ok(()))
        }
    }
}

/// A bring-up operation never runs a `down` command, through either
/// interface; and the composite operation aborts on a failed down: when
/// the legacy attempt of the down phase fails, the operation finishes with
/// an error and `up` is never requested.
pub proof fn lemma_compose_rules(s: ComposeExecutor, o: RunOutcome)
    requires
        s.wf(),
    ensures
        (s.op is Up ==> (match compose_step_spec(s, o) {
            (s2, step) => {
                &&& s2.wf()
                &&& (step matches ComposeStep::Run { action, .. } ==> action is Up)
            },
        })),
        (s.op is DownUp && s.action is Down && s.cli is Legacy && !o.is_success()) ==> (
        match compose_step_spec(s, o) {
            (s2, step) => step matches ComposeStep::Finished(r) && r is Err,
        }),
{
}

/// The argument words that one compose action appends.
pub open spec fn compose_action_args(a: ComposeAction) -> Seq<Seq<u8>> {
    match a {
        ComposeAction::Up => seq![w_up(), w_detached_flag()],
        ComposeAction::Down => seq![w_down()],
    }
}

/// The full argument list of one compose attempt, after the program name:
/// the modern interface takes a `compose` subcommand first; both then name
/// the manifest and the action.
pub open spec fn compose_argv_spec(cli: ComposeCli, a: ComposeAction, file: Seq<u8>) -> Seq<
    Seq<u8>,
> {
    let tail = seq![w_file_flag(), file] + compose_action_args(a);
    match cli {
        ComposeCli::Modern => seq![w_compose()] + tail,
        ComposeCli::Legacy => tail,
    }
}

/// The program one compose attempt launches.
pub fn compose_program(cli: ComposeCli) -> (r: Vec<u8>)
    ensures
        cli is Modern ==> r@ == w_docker(),
        cli is Legacy ==> r@ == w_docker_compose(),
{
    match cli {
        ComposeCli::Modern => w_docker_bytes(),
        ComposeCli::Legacy => w_docker_compose_bytes(),
    }
}

/// Renders the argument list for one compose attempt against `file`.
pub fn compose_argv(cli: ComposeCli, a: ComposeAction, file: &Vec<u8>) -> (r: Vec<Vec<u8>>)
    ensures
        r.deep_view() == compose_argv_spec(cli, a, file@),
{
    let mut r: Vec<Vec<u8>> = Vec::new();
    match cli {
        ComposeCli::Modern => {
            r.push(w_compose_bytes());
        },
        ComposeCli::Legacy => {},
    }
    r.push(w_file_flag_bytes());
    let mut f: Vec<u8> = Vec::new();
    push_all(&mut f, file.as_slice());
    r.push(f);
    match a {
        ComposeAction::Up => {
            r.push(w_up_bytes());
            r.push(w_detached_flag_bytes());
        },
        ComposeAction::Down => {
            r.push(w_down_bytes());
        },
    }
    assert(r.deep_view() =~~= compose_argv_spec(cli, a, file@));
    r
}

/// The ledger label of a compose operation: the working directory's name,
/// a slash, and the manifest name.
pub open spec fn compose_label_spec(cwd_name: Seq<u8>, manifest: Seq<u8>) -> Seq<u8> {
    cwd_name + seq![47u8] + manifest
}

/// Renders the history label for a compose target.
pub fn compose_label(cwd_name: &Vec<u8>, manifest: &Vec<u8>) -> (r: Vec<u8>)
    ensures
        r@ == compose_label_spec(cwd_name@, manifest@),
{
    let mut r: Vec<u8> = Vec::new();
    push_all(&mut r, cwd_name.as_slice());
    r.push(47);
    push_all(&mut r, manifest.as_slice());
    assert(r@ =~= compose_label_spec(cwd_name@, manifest@));
    r
}

} // verus!
