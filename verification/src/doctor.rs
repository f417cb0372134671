//! The checks that the doctor report runs on the logging setup.

use vstd::prelude::*;
use vstd::string::StringExecFns;

use crate::config::ResolvedLogBackend;

verus! {

/// What must be tried to check a logging backend.
#[derive(Debug, PartialEq, Eq)]
pub enum LogProbe {
    /// Nothing: logging to stderr needs no check.
    Nothing,
    /// Open the log file for reading and writing, creating it if needed.
    OpenFile { path: String },
    /// Connect to the local syslog.
    ConnectSyslog,
}

/// The outcome of one logging check.
#[derive(Debug, PartialEq, Eq)]
pub enum LoggingCheck {
    LogFileAccessible,
    InvalidLogFile { path: String, error: String },
    SyslogConnected,
    SyslogUnreachable { error: String },
}

/// The probe that checks `backend`.
pub open spec fn probe_for(backend: ResolvedLogBackend) -> LogProbe {
    match backend {
        ResolvedLogBackend::File { path } => LogProbe::OpenFile { path },
        ResolvedLogBackend::Syslog => LogProbe::ConnectSyslog,
        ResolvedLogBackend::Stderr => LogProbe::Nothing,
    }
}

/// The checks reported for `backend`, given what its probe gave.
pub open spec fn logging_checks(backend: ResolvedLogBackend, probe: Result<(), String>) -> Seq<
    LoggingCheck,
> {
    match backend {
        ResolvedLogBackend::File { path } => match probe {
            Ok(()) => seq![LoggingCheck::LogFileAccessible],
            Err(error) => seq![LoggingCheck::InvalidLogFile { path, error }],
        },
        ResolvedLogBackend::Syslog => match probe {
            Ok(()) => seq![LoggingCheck::SyslogConnected],
            Err(error) => seq![LoggingCheck::SyslogUnreachable { error }],
        },
        ResolvedLogBackend::Stderr => Seq::empty(),
    }
}

/// What must be tried to check `backend`.
pub fn logging_probe(backend: &ResolvedLogBackend) -> (r: LogProbe)
    ensures
        r == probe_for(*backend),
{
    match backend {
        ResolvedLogBackend::File { path } => LogProbe::OpenFile { path: path.clone() },
        ResolvedLogBackend::Syslog => LogProbe::ConnectSyslog,
        ResolvedLogBackend::Stderr => LogProbe::Nothing,
    }
}

/// Adds to `checks` what the probe of `backend` found: whether the log file is accessible,
/// whether syslog could be reached, and nothing for stderr.
pub fn check_logging_config(
    checks: &mut Vec<LoggingCheck>,
    backend: &ResolvedLogBackend,
    probe: Result<(), String>,
)
    ensures
        final(checks)@ == old(checks)@ + logging_checks(*backend, probe),
{
    let ghost before = checks@;
    match backend {
        ResolvedLogBackend::File { path } => match probe {
            Ok(()) => checks.push(LoggingCheck::LogFileAccessible),
            Err(error) => checks.push(LoggingCheck::InvalidLogFile { path: path.clone(), error }),
        },
        ResolvedLogBackend::Syslog => match probe {
            Ok(()) => checks.push(LoggingCheck::SyslogConnected),
            Err(error) => checks.push(LoggingCheck::SyslogUnreachable { error }),
        },
        ResolvedLogBackend::Stderr => {},
    }
    assert(checks@ =~= before + logging_checks(*backend, probe));
}

/// The text that `{:?}` gives for a string: the string quoted, with its special characters
/// escaped.
pub uninterp spec fn debug_quoted(s: Seq<char>) -> Seq<char>;

/// Formats `s` with `format!("{s:?}")`, the `Debug` rendering of a string; claimed: its text is
/// `debug_quoted` of the string, a function of the string alone.
#[verifier::external_body]
fn debug_text(s: &str) -> (r: String)
    ensures
        r@ == debug_quoted(s@),
{
    format!("{s:?}")
}

/// The line that the doctor report shows for a check.
pub open spec fn check_message(check: LoggingCheck) -> Seq<char> {
    match check {
        LoggingCheck::LogFileAccessible => "✅ log file is accessible"@,
        LoggingCheck::InvalidLogFile { path, error } => "⛔️ invalid log file path ("@
            + debug_quoted(path@) + ") provided: "@ + error@,
        LoggingCheck::SyslogConnected => "✅ connected to syslog successfully"@,
        LoggingCheck::SyslogUnreachable { error } => "⛔️ could not connect to syslog: "@ + error@,
    }
}

/// The checks section of the doctor report: one line ` - <message>` for each check.
pub open spec fn checks_text(checks: Seq<LoggingCheck>) -> Seq<char>
    decreases checks.len(),
{
    if checks.len() == 0 {
        Seq::empty()
    } else {
        checks_text(checks.drop_last()) + " - "@ + check_message(checks.last()) + "\n"@
    }
}

impl LoggingCheck {
    /// The line that the doctor report shows for this check.
    pub fn message(&self) -> (r: String)
        ensures
            r@ == check_message(*self),
    {
        match self {
            LoggingCheck::LogFileAccessible => String::from_str("✅ log file is accessible"),
            LoggingCheck::InvalidLogFile { path, error } => {
                let mut m = String::from_str("⛔️ invalid log file path (");
                let quoted = debug_text(path.as_str());
                m.append(quoted.as_str());
                m.append(") provided: ");
                m.append(error.as_str());
                m
            },
            LoggingCheck::SyslogConnected => String::from_str("✅ connected to syslog successfully"),
            LoggingCheck::SyslogUnreachable { error } => {
                let mut m = String::from_str("⛔️ could not connect to syslog: ");
                m.append(error.as_str());
                m
            },
        }
    }
}

/// The checks section of the doctor report.
pub fn checks_report(checks: &Vec<LoggingCheck>) -> (r: String)
    ensures
        r@ == checks_text(checks@),
{
    let mut r = String::new();
    let n = checks.len();
    let mut i: usize = 0;
    while i < n
        invariant
            n == checks@.len(),
            i <= n,
            r@ == checks_text(checks@.take(i as int)),
        decreases n - i,
    {
        let line = checks[i].message();
        r.append(" - ");
        r.append(line.as_str());
        r.append("\n");
        proof {
            assert(checks@.take(i + 1).drop_last() =~= checks@.take(i as int));
        }
        i = i + 1;
    }
    proof {
        assert(checks@.take(n as int) =~= checks@);
    }
    r
}

} // verus!
