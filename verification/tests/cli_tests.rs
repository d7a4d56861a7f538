//! Command-line parsing and target resolution.

use tickle::cli::{
    parse_command, parse_history_request, parse_invocation, resolve_target, wants_help,
    wants_version, CliError, HistoryAction, OperationTarget, TickleCommand,
};
use tickle::run::OpError;

fn args(words: &[&str]) -> Vec<Vec<u8>> {
    words.iter().map(|w| w.as_bytes().to_vec()).collect()
}

#[test]
fn bare_invocation_means_tickle() {
    assert_eq!(parse_command(&args(&["tickle"])), TickleCommand::Tickle);
}

#[test]
fn start_and_stop_subcommands_parse() {
    assert_eq!(parse_command(&args(&["tickle", "start"])), TickleCommand::Start);
    assert_eq!(parse_command(&args(&["tickle", "stop"])), TickleCommand::Stop);
}

#[test]
fn other_first_arguments_mean_tickle() {
    assert_eq!(parse_command(&args(&["tickle", "nginx"])), TickleCommand::Tickle);
}

#[test]
fn service_name_is_the_first_non_flag_argument() {
    let inv = parse_invocation(&args(&["tickle", "nginx"])).unwrap();
    assert_eq!(inv.command, TickleCommand::Tickle);
    assert_eq!(inv.service_name, b"nginx".to_vec());
    assert!(!inv.force_stop_start);
}

#[test]
fn start_takes_its_name_after_the_subcommand() {
    let inv = parse_invocation(&args(&["tickle", "start", "apache2"])).unwrap();
    assert_eq!(inv.command, TickleCommand::Start);
    assert_eq!(inv.service_name, b"apache2".to_vec());
}

#[test]
fn stop_start_flag_forces_the_strategy() {
    let inv = parse_invocation(&args(&["tickle", "--stop-start", "apache2"])).unwrap();
    assert!(inv.force_stop_start);
    assert_eq!(inv.service_name, b"apache2".to_vec());
    let inv = parse_invocation(&args(&["tickle", "-s"])).unwrap();
    assert!(inv.force_stop_start);
    assert_eq!(inv.service_name, b"".to_vec());
}

#[test]
fn stop_start_flag_is_rejected_outside_tickle() {
    assert_eq!(
        parse_invocation(&args(&["tickle", "start", "-s", "apache2"])),
        Err(CliError::StopStartOutsideTickle)
    );
}

#[test]
fn unknown_options_are_rejected() {
    assert_eq!(
        parse_invocation(&args(&["tickle", "--frobnicate"])),
        Err(CliError::UnknownOption { arg: b"--frobnicate".to_vec() })
    );
}

#[test]
fn follow_flag_is_recorded() {
    let inv = parse_invocation(&args(&["tickle", "-f", "nginx"])).unwrap();
    assert!(inv.follow);
    assert_eq!(inv.service_name, b"nginx".to_vec());
    let inv = parse_invocation(&args(&["tickle", "start", "--follow", "nginx"])).unwrap();
    assert!(inv.follow);
}

#[test]
fn missing_name_leaves_the_service_empty() {
    let inv = parse_invocation(&args(&["tickle"])).unwrap();
    assert_eq!(inv.service_name, b"".to_vec());
}

#[test]
fn help_and_version_are_found_anywhere() {
    assert!(wants_help(&args(&["tickle", "start", "--help"])));
    assert!(wants_help(&args(&["tickle", "-h"])));
    assert!(!wants_help(&args(&["tickle", "nginx"])));
    assert!(wants_version(&args(&["tickle", "-v"])));
    assert!(wants_version(&args(&["tickle", "--version"])));
    assert!(!wants_version(&args(&["tickle"])));
}

#[test]
fn named_service_wins_over_a_manifest() {
    let r = resolve_target(&b"nginx".to_vec(), &Some(b"compose.yaml".to_vec()));
    assert_eq!(r, Ok(OperationTarget::SystemService(b"nginx".to_vec())));
}

#[test]
fn manifest_is_the_target_without_a_name() {
    let r = resolve_target(&b"".to_vec(), &Some(b"compose.yaml".to_vec()));
    assert_eq!(r, Ok(OperationTarget::ComposeStack(b"compose.yaml".to_vec())));
}

/// Scenario: empty directory, no service name, no manifest - the dispatcher
/// fails with a "no target" error before any executor runs, and no history
/// record is ever written.
#[test]
fn no_name_and_no_manifest_is_an_error_before_any_work() {
    // Mirror the dispatcher: parse, then resolve the target, and only on
    // success run an executor and append to the ledger.
    let mut commands_run: Vec<Vec<u8>> = Vec::new();
    let mut ledger: Vec<u8> = Vec::new();

    let inv = parse_invocation(&args(&["tickle"])).unwrap();
    match resolve_target(&inv.service_name, &None) {
        Ok(_) => {
            commands_run.push(b"some command".to_vec());
            ledger.extend_from_slice(b"some record\n");
        }
        Err(e) => assert_eq!(e, OpError::NoTarget),
    }
    // The failure precedes both the executors and the ledger: nothing was
    // launched and nothing was appended.
    assert_eq!(commands_run.len(), 0);
    assert_eq!(ledger.len(), 0);
}

#[test]
fn history_requests_parse() {
    assert_eq!(parse_history_request(&args(&["tickle", "nginx"])), None);
    assert_eq!(
        parse_history_request(&args(&["tickle", "history"])),
        Some(Ok(HistoryAction::ShowAll))
    );
    assert_eq!(
        parse_history_request(&args(&["tickle", "history", "clear"])),
        Some(Ok(HistoryAction::Clear))
    );
    assert_eq!(
        parse_history_request(&args(&["tickle", "history", "-n", "12"])),
        Some(Ok(HistoryAction::ShowLast(12)))
    );
    assert_eq!(
        parse_history_request(&args(&["tickle", "history", "-n", "zwoelf"])),
        Some(Err(CliError::HistoryUsage))
    );
    assert_eq!(
        parse_history_request(&args(&["tickle", "history", "weird"])),
        Some(Err(CliError::HistoryUsage))
    );
}

#[test]
fn history_counts_cover_the_whole_range() {
    assert_eq!(
        parse_history_request(&args(&["tickle", "history", "-n", "18446744073709551615"])),
        Some(Ok(HistoryAction::ShowLast(u64::MAX)))
    );
    assert_eq!(
        parse_history_request(&args(&["tickle", "history", "-n", "18446744073709551616"])),
        Some(Err(CliError::HistoryUsage))
    );
    assert_eq!(
        parse_history_request(&args(&["tickle", "history", "-n", "0"])),
        Some(Ok(HistoryAction::ShowLast(0)))
    );
}
