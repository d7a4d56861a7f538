//! Decision core of `tickle`, a command-line helper that restarts, starts or
//! stops a managed workload: either an init-system service or a
//! container-compose stack.
//!
//! Everything that decides - mapping captured output to service states,
//! picking a restart strategy, sequencing the stop/start and down/up phases,
//! locating a compose manifest, parsing the command line, and keeping the
//! operation history - lives here as verified code over plain values.
//! Launching external commands, reading the clock and touching the
//! filesystem are left to the surrounding binary, which feeds the results
//! back into these functions.

pub mod text;
pub mod words;
pub mod run;
pub mod state;
pub mod strategy;
pub mod cli;
pub mod service;
pub mod compose;
pub mod clock;
pub mod history;
