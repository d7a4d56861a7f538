//! Requests to the external control planes and the outcomes they produce.
//!
//! The tool itself never launches a process; it hands the surrounding binary
//! a request (which subcommand to run, with which arguments) and absorbs the
//! outcome: either the command could not be launched at all, or it exited
//! with a status and captured output.  Every error the decision core can
//! report is collected in [`OpError`].

use vstd::prelude::*;
use crate::text::push_all;
use crate::words::{
    w_cat, w_cat_bytes, w_is_active, w_is_active_bytes, w_property_can_restart,
    w_property_can_restart_bytes, w_property_remain_after_exit, w_property_remain_after_exit_bytes,
    w_property_type, w_property_type_bytes, w_restart, w_restart_bytes, w_show, w_show_bytes,
    w_start, w_start_bytes, w_stop, w_stop_bytes, w_systemctl, w_systemctl_bytes, w_version_flag,
    w_version_flag_bytes,
};

verus! {

/// One invocation of the init-system control plane.
#[derive(Clone, Copy, Debug, PartialEq, Eq, Structural)]
pub enum SysRequestKind {
    /// `--version`: probe that the control plane can be launched at all.
    Version,
    /// `is-active <unit>`: query the unit's activation state.
    IsActive,
    /// `cat <unit>`: dump the unit definition, to learn whether it exists.
    CatUnit,
    /// `show <unit> --property=CanRestart`: probe the restart capability.
    ShowCanRestart,
    /// `show <unit> --property=Type`: probe the declared service type.
    ShowType,
    /// `show <unit> --property=RemainAfterExit`: probe whether a one-shot
    /// unit keeps state after exit.
    ShowRemainAfterExit,
    /// `restart <unit>`.
    Restart,
    /// `start <unit>`.
    Start,
    /// `stop <unit>`.
    Stop,
}

/// What became of one launched external command.
#[derive(Debug, PartialEq, Eq)]
pub enum RunOutcome {
    /// The command could not be launched at all (control plane absent).
    LaunchFailure,
    /// The command ran to completion.
    Exited { success: bool, stdout: Vec<u8>, stderr: Vec<u8> },
}

impl RunOutcome {
    /// The command was launched and exited successfully.
    pub open spec fn is_success(self) -> bool {
        self matches RunOutcome::Exited { success, .. } && success
    }
}

/// Everything that can go wrong while carrying out one operation.
#[derive(Debug, PartialEq, Eq)]
pub enum OpError {
    /// The init-system control plane cannot be launched at all.
    Unavailable,
    /// A single init-system invocation could not be launched.
    SysLaunch { request: SysRequestKind },
    /// An init-system command exited with a failure status.
    SysCommandFailed { request: SysRequestKind, stderr: Vec<u8> },
    /// The fallback compose control plane could not be launched.
    ComposeLaunch,
    /// A compose command exited with a failure status on the last attempt.
    ComposeCommandFailed { stderr: Vec<u8> },
    /// No service name was given and no compose manifest was found.
    NoTarget,
}

/// The argument list of one init-system invocation, after the program name.
pub open spec fn sys_argv_spec(kind: SysRequestKind, unit: Seq<u8>) -> Seq<Seq<u8>> {
    match kind {
        SysRequestKind::Version => seq![w_version_flag()],
        SysRequestKind::IsActive => seq![w_is_active(), unit],
        SysRequestKind::CatUnit => seq![w_cat(), unit],
        SysRequestKind::ShowCanRestart => seq![w_show(), unit, w_property_can_restart()],
        SysRequestKind::ShowType => seq![w_show(), unit, w_property_type()],
        SysRequestKind::ShowRemainAfterExit => seq![
            w_show(),
            unit,
            w_property_remain_after_exit(),
        ],
        SysRequestKind::Restart => seq![w_restart(), unit],
        SysRequestKind::Start => seq![w_start(), unit],
        SysRequestKind::Stop => seq![w_stop(), unit],
    }
}

/// The name of the init-system control-plane program.
pub fn sys_program() -> (r: Vec<u8>)
    ensures
        r@ == w_systemctl(),
{
    w_systemctl_bytes()
}

/// Copies a byte string into an owned vector.
fn owned_copy(s: &Vec<u8>) -> (r: Vec<u8>)
    ensures
        r@ == s@,
{
    let mut r: Vec<u8> = Vec::new();
    push_all(&mut r, s.as_slice());
    r
}

/// Renders the argument list for one init-system request against `unit`.
pub fn sys_argv(kind: SysRequestKind, unit: &Vec<u8>) -> (r: Vec<Vec<u8>>)
    ensures
        r.deep_view() == sys_argv_spec(kind, unit@),
{
    let mut r: Vec<Vec<u8>> = Vec::new();
    match kind {
        SysRequestKind::Version => {
            r.push(w_version_flag_bytes());
        },
        SysRequestKind::IsActive => {
            r.push(w_is_active_bytes());
            r.push(owned_copy(unit));
        },
        SysRequestKind::CatUnit => {
            r.push(w_cat_bytes());
            r.push(owned_copy(unit));
        },
        SysRequestKind::ShowCanRestart => {
            r.push(w_show_bytes());
            r.push(owned_copy(unit));
            r.push(w_property_can_restart_bytes());
        },
        SysRequestKind::ShowType => {
            r.push(w_show_bytes());
            r.push(owned_copy(unit));
            r.push(w_property_type_bytes());
        },
        SysRequestKind::ShowRemainAfterExit => {
            r.push(w_show_bytes());
            r.push(owned_copy(unit));
            r.push(w_property_remain_after_exit_bytes());
        },
        SysRequestKind::Restart => {
            r.push(w_restart_bytes());
            r.push(owned_copy(unit));
        },
        SysRequestKind::Start => {
            r.push(w_start_bytes());
            r.push(owned_copy(unit));
        },
        SysRequestKind::Stop => {
            r.push(w_stop_bytes());
            r.push(owned_copy(unit));
        },
    }
    assert(r.deep_view() =~~= sys_argv_spec(kind, unit@));
    r
}

} // verus!
