//! Command-line decisions: which request the user made, which options are
//! set, which target the operation addresses.
//!
//! The surrounding binary collects the raw arguments and the answer to "is
//! a compose manifest present"; everything that is decided from them is
//! verified here.

use vstd::prelude::*;
use crate::run::OpError;
use crate::text::{bytes_eq, push_all};
use crate::words::{
    w_clear, w_clear_bytes, w_count_flag, w_count_flag_bytes, w_follow_long, w_follow_long_bytes,
    w_follow_short, w_follow_short_bytes, w_help_long, w_help_long_bytes, w_help_short,
    w_help_short_bytes, w_history, w_history_bytes, w_start, w_start_bytes, w_stop, w_stop_bytes,
    w_stop_start_long, w_stop_start_long_bytes, w_stop_start_short, w_stop_start_short_bytes,
    w_tickle, w_tickle_bytes, w_version_flag, w_version_flag_bytes, w_version_short,
    w_version_short_bytes,
};

verus! {

/// The three top-level request kinds.  The default, with no subcommand, is
/// the composite "tickle": restart, or stop then start, the target.
#[derive(Clone, Copy, Debug, PartialEq, Eq, Structural)]
pub enum TickleCommand {
    Tickle,
    Start,
    Stop,
}

/// The command that an argument list requests: `start`, `stop`, or the
/// default tickle for anything else.
pub open spec fn parse_command_spec(args: Seq<Seq<u8>>) -> TickleCommand {
    if args.len() > 1 {
        if args[1] == w_start() {
            TickleCommand::Start
        } else if args[1] == w_stop() {
            TickleCommand::Stop
        } else {
            TickleCommand::Tickle
        }
    } else {
        TickleCommand::Tickle
    }
}

/// Parses the request kind out of the raw arguments (`args[0]` is the
/// program name).
pub fn parse_command(args: &Vec<Vec<u8>>) -> (c: TickleCommand)
    ensures
        c == parse_command_spec(args.deep_view()),
{
    if args.len() > 1 {
        let a = &args[1];
        assert(args.deep_view()[1] == args@[1]@);
        if bytes_eq(a.as_slice(), w_start_bytes().as_slice()) {
            TickleCommand::Start
        } else if bytes_eq(a.as_slice(), w_stop_bytes().as_slice()) {
            TickleCommand::Stop
        } else {
            TickleCommand::Tickle
        }
    } else {
        TickleCommand::Tickle
    }
}

/// The ledger token naming a command kind (`tickle`, `start`, `stop`).
pub open spec fn kind_text_spec(c: TickleCommand) -> Seq<u8> {
    match c {
        TickleCommand::Tickle => w_tickle(),
        TickleCommand::Start => w_start(),
        TickleCommand::Stop => w_stop(),
    }
}

/// Renders the name of a command kind, as recorded in the history ledger.
pub fn kind_text(c: TickleCommand) -> (r: Vec<u8>)
    ensures
        r@ == kind_text_spec(c),
{
    match c {
        TickleCommand::Tickle => w_tickle_bytes(),
        TickleCommand::Start => w_start_bytes(),
        TickleCommand::Stop => w_stop_bytes(),
    }
}

/// Some argument anywhere on the line asks for the help text.
pub open spec fn wants_help_spec(args: Seq<Seq<u8>>) -> bool {
    exists|i: int|
        0 <= i < args.len() && (args[i] == w_help_short() || args[i] == w_help_long())
}

/// Some argument anywhere on the line asks for the version line.
pub open spec fn wants_version_spec(args: Seq<Seq<u8>>) -> bool {
    exists|i: int|
        0 <= i < args.len() && (args[i] == w_version_short() || args[i] == w_version_flag())
}

/// Does any argument ask for the help text (`-h` / `--help`)?
pub fn wants_help(args: &Vec<Vec<u8>>) -> (r: bool)
    ensures
        r == wants_help_spec(args.deep_view()),
{
    let n = args.len();
    let mut i: usize = 0;
    while i < n
        invariant
            i <= n,
            n == args@.len(),
            forall|j: int|
                0 <= j < i ==> !(args.deep_view()[j] == w_help_short() || args.deep_view()[j]
                    == w_help_long()),
        decreases n - i,
    {
        assert(args.deep_view()[i as int] == args@[i as int]@);
        let a = &args[i];
        if bytes_eq(a.as_slice(), w_help_short_bytes().as_slice()) || bytes_eq(
            a.as_slice(),
            w_help_long_bytes().as_slice(),
        ) {
            return true;
        }
        i += 1;
    }
    false
}

/// Does any argument ask for the version line (`-v` / `--version`)?
pub fn wants_version(args: &Vec<Vec<u8>>) -> (r: bool)
    ensures
        r == wants_version_spec(args.deep_view()),
{
    let n = args.len();
    let mut i: usize = 0;
    while i < n
        invariant
            i <= n,
            n == args@.len(),
            forall|j: int|
                0 <= j < i ==> !(args.deep_view()[j] == w_version_short() || args.deep_view()[j]
                    == w_version_flag()),
        decreases n - i,
    {
        assert(args.deep_view()[i as int] == args@[i as int]@);
        let a = &args[i];
        if bytes_eq(a.as_slice(), w_version_short_bytes().as_slice()) || bytes_eq(
            a.as_slice(),
            w_version_flag_bytes().as_slice(),
        ) {
            return true;
        }
        i += 1;
    }
    false
}

/// A fully scanned invocation: the request kind, whether stop-then-start
/// was forced, whether logs are to be followed afterwards, and the named
/// service (empty when none was given).
#[derive(Debug, PartialEq, Eq)]
pub struct Invocation {
    pub command: TickleCommand,
    pub force_stop_start: bool,
    pub follow: bool,
    pub service_name: Vec<u8>,
}

/// A rejected argument list.
#[derive(Debug, PartialEq, Eq)]
pub enum CliError {
    /// An option that this tool does not know.
    UnknownOption { arg: Vec<u8> },
    /// `-s` / `--stop-start` given with a command other than tickle.
    StopStartOutsideTickle,
    /// A malformed `history` subcommand line.
    HistoryUsage,
}

/// The result of scanning the option arguments, at the spec level.
pub enum ArgScan {
    Settled { force: bool, follow: bool, service: Seq<u8> },
    UnknownOption { arg: Seq<u8> },
    StopStartMisused,
}

/// Scans the arguments from position `i`: `-s`/`--stop-start` forces
/// stop-then-start (tickle only), `-f`/`--follow` asks for the log
/// hand-off afterwards, the first argument that does not begin with `-`
/// names the service, anything else is unknown.
pub open spec fn scan_args(
    args: Seq<Seq<u8>>,
    i: int,
    is_tickle: bool,
    force: bool,
    follow: bool,
) -> ArgScan
    decreases args.len() - i,
{
    if i < 0 || i >= args.len() {
        ArgScan::Settled { force, follow, service: Seq::empty() }
    } else {
        let a = args[i];
        if a == w_stop_start_short() || a == w_stop_start_long() {
            if is_tickle {
                scan_args(args, i + 1, is_tickle, true, follow)
            } else {
                ArgScan::StopStartMisused
            }
        } else if a == w_follow_short() || a == w_follow_long() {
            scan_args(args, i + 1, is_tickle, force, true)
        } else if a.len() == 0 || a[0] != 45 {
            ArgScan::Settled { force, follow, service: a }
        } else {
            ArgScan::UnknownOption { arg: a }
        }
    }
}

/// The option arguments start after the program name and, for `start` and
/// `stop`, after the subcommand word.
pub open spec fn scan_start(c: TickleCommand) -> int {
    if c is Tickle {
        1
    } else {
        2
    }
}

/// What a whole argument list amounts to.
pub open spec fn invocation_spec(args: Seq<Seq<u8>>) -> ArgScan {
    let c = parse_command_spec(args);
    scan_args(args, scan_start(c), c is Tickle, false, false)
}

/// Parses the raw arguments into an [`Invocation`], or rejects them.
pub fn parse_invocation(args: &Vec<Vec<u8>>) -> (r: Result<Invocation, CliError>)
    ensures
        (match r {
            Ok(inv) => {
                &&& inv.command == parse_command_spec(args.deep_view())
                &&& invocation_spec(args.deep_view()) == (ArgScan::Settled {
                    force: inv.force_stop_start,
                    follow: inv.follow,
                    service: inv.service_name@,
                })
            },
            Err(CliError::UnknownOption { arg }) => invocation_spec(args.deep_view())
                == (ArgScan::UnknownOption { arg: arg@ }),
            Err(CliError::StopStartOutsideTickle) => invocation_spec(args.deep_view())
                == ArgScan::StopStartMisused,
            Err(CliError::HistoryUsage) => false,
        }),
{
    let ghost dv = args.deep_view();
    let command = parse_command(args);
    let is_tickle = match command {
        TickleCommand::Tickle => true,
        _ => false,
    };
    let mut i: usize = if is_tickle {
        1
    } else {
        2
    };
    let mut force = false;
    let mut follow = false;
    assert(scan_args(dv, scan_start(command), command is Tickle, false, false) == scan_args(
        dv,
        i as int,
        is_tickle,
        force,
        follow,
    ));
    let n = args.len();
    while i < n
        invariant
            n == args@.len(),
            invocation_spec(dv) == scan_args(dv, i as int, is_tickle, force, follow),
            dv == args.deep_view(),
            command == parse_command_spec(dv),
            is_tickle == (command is Tickle),
        decreases n - i,
    {
        assert(dv[i as int] == args@[i as int]@);
        let a = &args[i];
        if bytes_eq(a.as_slice(), w_stop_start_short_bytes().as_slice()) || bytes_eq(
            a.as_slice(),
            w_stop_start_long_bytes().as_slice(),
        ) {
            if is_tickle {
                force = true;
            } else {
                return Err(CliError::StopStartOutsideTickle);
            }
        } else if bytes_eq(a.as_slice(), w_follow_short_bytes().as_slice()) || bytes_eq(
            a.as_slice(),
            w_follow_long_bytes().as_slice(),
        ) {
            follow = true;
        } else if a.len() == 0 || *vstd::slice::slice_index_get(a.as_slice(), 0) != 45 {
            let mut service: Vec<u8> = Vec::new();
            push_all(&mut service, a.as_slice());
            assert(service@ =~= args@[i as int]@);
            return Ok(
                Invocation { command, force_stop_start: force, follow, service_name: service },
            );
        } else {
            let mut arg: Vec<u8> = Vec::new();
            push_all(&mut arg, a.as_slice());
            assert(arg@ =~= args@[i as int]@);
            return Err(CliError::UnknownOption { arg });
        }
        i += 1;
    }
    Ok(Invocation { command, force_stop_start: force, follow, service_name: Vec::new() })
}

/// What `history` asks the ledger to do.
#[derive(Debug, Clone, Copy, PartialEq, Eq, Structural)]
pub enum HistoryAction {
    /// Render every record.
    ShowAll,
    /// Render only the most recent `n` records.
    ShowLast(u64),
    /// Delete the ledger.
    Clear,
}

/// A decimal digit.
pub open spec fn is_digit(b: u8) -> bool {
    48 <= b && b <= 57
}

/// The number that a digit string denotes.
pub open spec fn dec_value(s: Seq<u8>) -> int
    decreases s.len(),
{
    if s.len() == 0 {
        0
    } else {
        dec_value(s.drop_last()) * 10 + (s.last() - 48)
    }
}

/// A well-formed count argument: digits only, non-empty, in range.
pub open spec fn is_count(s: Seq<u8>) -> bool {
    &&& s.len() > 0
    &&& forall|i: int| 0 <= i < s.len() ==> is_digit(s[i])
    &&& dec_value(s) <= u64::MAX
}

proof fn lemma_dec_value_prefix(s: Seq<u8>, i: int)
    requires
        0 <= i < s.len(),
    ensures
        dec_value(s.subrange(0, i + 1)) == dec_value(s.subrange(0, i)) * 10 + (s[i] - 48),
{
    assert(s.subrange(0, i + 1).drop_last() =~= s.subrange(0, i));
    assert(s.subrange(0, i + 1).last() == s[i]);
}

proof fn lemma_dec_value_nonneg(s: Seq<u8>)
    requires
        forall|j: int| 0 <= j < s.len() ==> is_digit(s[j]),
    ensures
        dec_value(s) >= 0,
    decreases s.len(),
{
    if s.len() > 0 {
        lemma_dec_value_nonneg(s.drop_last());
    }
}

proof fn lemma_dec_value_grows(s: Seq<u8>, i: int)
    requires
        0 <= i <= s.len(),
        forall|j: int| 0 <= j < s.len() ==> is_digit(s[j]),
    ensures
        dec_value(s.subrange(0, i)) <= dec_value(s),
    decreases s.len() - i,
{
    if i == s.len() {
        assert(s.subrange(0, i) =~= s);
    } else {
        lemma_dec_value_prefix(s, i);
        assert(forall|j: int| 0 <= j < i ==> is_digit(s.subrange(0, i)[j]));
        lemma_dec_value_nonneg(s.subrange(0, i));
        lemma_dec_value_grows(s, i + 1);
    }
}

/// Parses a decimal count; `None` when the text is not a number or does
/// not fit.
pub fn parse_count(s: &[u8]) -> (r: Option<u64>)
    ensures
        (match r {
            Some(v) => is_count(s@) && v == dec_value(s@),
            None => !is_count(s@),
        }),
{
    let n = s.len();
    if n == 0 {
        return None;
    }
    let mut v: u64 = 0;
    let mut i: usize = 0;
    while i < n
        invariant
            i <= n,
            n == s@.len(),
            n > 0,
            forall|j: int| 0 <= j < i ==> is_digit(s@[j]),
            v == dec_value(s@.subrange(0, i as int)),
        decreases n - i,
    {
        let b = s[i];
        if b < 48 || b > 57 {
            assert(!is_digit(s@[i as int]));
            return None;
        }
        let d = (b - 48) as u64;
        if v > (u64::MAX - d) / 10 {
            proof {
                if is_count(s@) {
                    lemma_dec_value_prefix(s@, i as int);
                    lemma_dec_value_grows(s@, i + 1);
                }
            }
            return None;
        }
        proof {
            lemma_dec_value_prefix(s@, i as int);
        }
        v = v * 10 + d;
        i += 1;
    }
    assert(s@.subrange(0, n as int) =~= s@);
    Some(v)
}

/// The ledger action that a `history` argument list requests, if the line
/// is a history request at all.
pub open spec fn history_request_spec(args: Seq<Seq<u8>>) -> Option<Result<
    HistoryAction,
    CliError,
>> {
    if args.len() > 1 && args[1] == w_history() {
        if args.len() == 2 {
            Some(Ok(HistoryAction::ShowAll))
        } else if args[2] == w_clear() && args.len() == 3 {
            Some(Ok(HistoryAction::Clear))
        } else if args[2] == w_count_flag() && args.len() == 4 && is_count(args[3]) {
            Some(Ok(HistoryAction::ShowLast(dec_value(args[3]) as u64)))
        } else {
            Some(Err(CliError::HistoryUsage))
        }
    } else {
        None
    }
}

/// Recognizes the `history` side channel: `history`, `history clear`, or
/// `history -n <count>`.  `None` when the line is no history request.
pub fn parse_history_request(args: &Vec<Vec<u8>>) -> (r: Option<Result<HistoryAction, CliError>>)
    ensures
        r == history_request_spec(args.deep_view()),
{
    let ghost dv = args.deep_view();
    if args.len() > 1 {
        assert(dv[1] == args@[1]@);
        if bytes_eq(args[1].as_slice(), w_history_bytes().as_slice()) {
            if args.len() == 2 {
                return Some(Ok(HistoryAction::ShowAll));
            }
            assert(dv[2] == args@[2]@);
            if bytes_eq(args[2].as_slice(), w_clear_bytes().as_slice()) && args.len() == 3 {
                return Some(Ok(HistoryAction::Clear));
            }
            if bytes_eq(args[2].as_slice(), w_count_flag_bytes().as_slice()) && args.len() == 4 {
                assert(dv[3] == args@[3]@);
                match parse_count(args[3].as_slice()) {
                    Some(v) => {
                        return Some(Ok(HistoryAction::ShowLast(v)));
                    },
                    None => {
                        return Some(Err(CliError::HistoryUsage));
                    },
                }
            }
            return Some(Err(CliError::HistoryUsage));
        }
    }
    None
}

/// What one invocation operates on: a named init-system service, or the
/// compose stack described by a manifest file.
#[derive(Debug, PartialEq, Eq)]
pub enum OperationTarget {
    SystemService(Vec<u8>),
    ComposeStack(Vec<u8>),
}

/// Picks the operation target: an explicitly named service wins; otherwise
/// a discovered compose manifest; otherwise there is no target and nothing
/// is attempted.
pub fn resolve_target(service_name: &Vec<u8>, manifest: &Option<Vec<u8>>) -> (r: Result<
    OperationTarget,
    OpError,
>)
    ensures
        service_name@.len() > 0 ==> (r matches Ok(t) && t matches OperationTarget::SystemService(n)
            && n@ == service_name@),
        service_name@.len() == 0 ==> (match manifest {
            Some(m) => r matches Ok(t) && t matches OperationTarget::ComposeStack(p) && p@ == m@,
            None => r == Err::<OperationTarget, OpError>(OpError::NoTarget),
        }),
{
    if service_name.len() > 0 {
        let mut n: Vec<u8> = Vec::new();
        push_all(&mut n, service_name.as_slice());
        Ok(OperationTarget::SystemService(n))
    } else {
        match manifest {
            Some(m) => {
                let mut p: Vec<u8> = Vec::new();
                push_all(&mut p, m.as_slice());
                Ok(OperationTarget::ComposeStack(p))
            },
            None => Err(OpError::NoTarget),
        }
    }
}

} // verus!
