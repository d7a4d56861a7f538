//! Service State Inspector: mapping the init system's free-text activation
//! answer to a closed set of states.
//!
//! The captured standard output of `is-active` is normalized (whitespace
//! trimmed, ASCII-lowercased) and mapped to one of four states; any
//! unrecognized text is [`ServiceState::Unknown`], never an error.

use vstd::prelude::*;
use crate::text::{bytes_eq, lower, lowercased, trim, trimmed};
use crate::words::{
    w_active, w_active_bytes, w_failed, w_failed_bytes, w_inactive, w_inactive_bytes,
};

verus! {

/// The activation state of an init-system unit, as this tool understands it.
#[derive(Clone, Copy, Debug, PartialEq, Eq, Structural)]
pub enum ServiceState {
    Active,
    Inactive,
    Failed,
    Unknown,
}

/// The state that a raw `is-active` answer denotes: the answer is trimmed
/// and lowercased, then matched against the three known state words.
pub open spec fn state_of(raw: Seq<u8>) -> ServiceState {
    let n = lower(trimmed(raw));
    if n == w_active() {
        ServiceState::Active
    } else if n == w_inactive() {
        ServiceState::Inactive
    } else if n == w_failed() {
        ServiceState::Failed
    } else {
        ServiceState::Unknown
    }
}

/// Maps the captured output of the init system's `is-active` query to a
/// [`ServiceState`], case-insensitively and ignoring surrounding whitespace.
pub fn get_state(raw: &Vec<u8>) -> (s: ServiceState)
    ensures
        s == state_of(raw@),
{
    let t = trim(raw.as_slice());
    let n = lowercased(t.as_slice());
    if bytes_eq(n.as_slice(), w_active_bytes().as_slice()) {
        ServiceState::Active
    } else if bytes_eq(n.as_slice(), w_inactive_bytes().as_slice()) {
        ServiceState::Inactive
    } else if bytes_eq(n.as_slice(), w_failed_bytes().as_slice()) {
        ServiceState::Failed
    } else {
        ServiceState::Unknown
    }
}

} // verus!
