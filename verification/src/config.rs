//! The configuration: the command line's commands, the jobs and the logging settings, and the
//! rules that resolve their defaults.

use std::collections::HashMap;

use vstd::prelude::*;
use vstd::string::StringExecFns;

use crate::time::Instant;

verus! {

/// Where the configuration file lives unless the command line names another.
pub const DEFAULT_CONFIG_PATH: &'static str = "/etc/kwon/jobs.toml";

/// Where the run history lives unless the configuration names another file.
pub const DEFAULT_HISTORY_PATH: &'static str = "/var/lib/kwon/history.json";

/// The value of `log_file` that sends the log to stderr.
pub const STDERR_LOG_FILE: &'static str = "$STDERR";

/// The commands of the command line.
#[derive(Debug, Clone, Copy, PartialEq, Eq, Structural)]
pub enum Commands {
    /// Installs kwon as a daemon on your system.
    Install {
        /// Install as a systemd service.
        systemd: Option<bool>,
    },
    /// Starts the daemon process.
    Daemon,
    /// Loads the configuration and prints what kwon knows about its environment.
    Doctor,
}

/// What the program does for a command.
#[derive(Debug, Clone, Copy, PartialEq, Eq, Structural)]
pub enum CommandPlan {
    /// Install the systemd service; needs no configuration file.
    InstallSystemd,
    /// Load the configuration and run the daemon loop.
    RunDaemon,
    /// Load the configuration and print the doctor report.
    PrintDoctor,
}

/// Why a command was refused.
#[derive(Debug, Clone, Copy, PartialEq, Eq, Structural)]
pub enum CommandError {
    /// `install` was asked for without asking for systemd.
    SystemdFlagRequired,
}

/// The plan for a command: installing is only done as a systemd service.
pub open spec fn command_plan(command: Commands) -> Result<CommandPlan, CommandError> {
    match command {
        Commands::Install { systemd } => if systemd == Some(true) {
            Ok(CommandPlan::InstallSystemd)
        } else {
            Err(CommandError::SystemdFlagRequired)
        },
        Commands::Daemon => Ok(CommandPlan::RunDaemon),
        Commands::Doctor => Ok(CommandPlan::PrintDoctor),
    }
}

impl Commands {
    /// Decides what the program does for this command.
    pub fn plan(&self) -> (r: Result<CommandPlan, CommandError>)
        ensures
            r == command_plan(*self),
    {
        match self {
            Commands::Install { systemd } => match systemd {
                Some(true) => Ok(CommandPlan::InstallSystemd),
                _ => Err(CommandError::SystemdFlagRequired),
            },
            Commands::Daemon => Ok(CommandPlan::RunDaemon),
            Commands::Doctor => Ok(CommandPlan::PrintDoctor),
        }
    }
}

/// How much the logger lets through, from nothing (`Off`) to everything (`Trace`).
#[derive(Debug, Clone, Copy, PartialEq, Eq, Structural)]
pub enum LevelFilter {
    Off,
    Error,
    Warn,
    Info,
    Debug,
    Trace,
}

/// The log levels that the configuration file accepts.
#[derive(Debug, Clone, Copy, PartialEq, Eq, Structural)]
pub enum CustomLogLevel {
    Debug,
    Info,
    Warn,
}

/// The filter that a configured log level stands for.
pub open spec fn level_filter_of(level: CustomLogLevel) -> LevelFilter {
    match level {
        CustomLogLevel::Debug => LevelFilter::Debug,
        CustomLogLevel::Info => LevelFilter::Info,
        CustomLogLevel::Warn => LevelFilter::Warn,
    }
}

impl CustomLogLevel {
    /// Converts a configured log level to the logger's filter.
    pub fn to_level_filter(&self) -> (r: LevelFilter)
        ensures
            r == level_filter_of(*self),
    {
        match self {
            CustomLogLevel::Debug => LevelFilter::Debug,
            CustomLogLevel::Info => LevelFilter::Info,
            _ => LevelFilter::Warn,
        }
    }
}

/// A job to run on a schedule.
#[derive(Debug)]
pub struct JobSpecification {
    /// The program to run; `$PATH` is searched unless the name holds a path separator.
    pub executable: String,
    /// The arguments handed to the program, if any.
    pub args: Option<Vec<String>>,
    /// Environment variables added to those the job inherits.
    pub environment: Option<HashMap<String, String>>,
    /// The working directory of the job; by default the daemon's.
    pub working_directory: Option<String>,
    /// The first time at which the job may run.
    pub start_at: Instant,
    /// The number of seconds between runs.
    pub interval_seconds: i64,
}

/// Whether no name occurs twice among `jobs`.
pub open spec fn job_names_distinct(jobs: Seq<(String, JobSpecification)>) -> bool {
    forall|i: int, j: int|
        0 <= i < jobs.len() && 0 <= j < jobs.len() && i != j ==> #[trigger] jobs[i].0@
            != #[trigger] jobs[j].0@
}

/// `jobs` with `entry` put under its name: in place of the job of that name, or after the
/// others when there is none.
pub open spec fn with_job(
    jobs: Seq<(String, JobSpecification)>,
    entry: (String, JobSpecification),
) -> Seq<(String, JobSpecification)> {
    if exists|i: int| 0 <= i < jobs.len() && #[trigger] jobs[i].0@ == entry.0@ {
        jobs.update(choose|i: int| 0 <= i < jobs.len() && #[trigger] jobs[i].0@ == entry.0@, entry)
    } else {
        jobs.push(entry)
    }
}

/// The jobs that putting `entries` in turn under their names gives; where a name occurs twice,
/// the later job replaces the earlier.
pub open spec fn jobs_from(entries: Seq<(String, JobSpecification)>) -> Seq<
    (String, JobSpecification),
>
    decreases entries.len(),
{
    if entries.len() == 0 {
        Seq::empty()
    } else {
        with_job(jobs_from(entries.drop_last()), entries.last())
    }
}

/// The jobs of a configuration, each under a name of its own.
#[derive(Debug)]
pub struct Jobs {
    entries: Vec<(String, JobSpecification)>,
}

impl Jobs {
    #[verifier::type_invariant]
    spec fn names_are_distinct(self) -> bool {
        job_names_distinct(self.entries@)
    }
}

impl View for Jobs {
    type V = Seq<(String, JobSpecification)>;

    closed spec fn view(&self) -> Seq<(String, JobSpecification)> {
        self.entries@
    }
}

impl Jobs {
    /// No jobs.
    pub fn new() -> (r: Jobs)
        ensures
            r@ == Seq::<(String, JobSpecification)>::empty(),
    {
        Jobs { entries: Vec::new() }
    }

    /// The number of jobs.
    pub fn len(&self) -> (r: usize)
        ensures
            r == self@.len(),
    {
        self.entries.len()
    }

    /// The job at position `i`, with its name.
    pub fn get(&self, i: usize) -> (r: &(String, JobSpecification))
        requires
            i < self@.len(),
        ensures
            *r == self@[i as int],
    {
        &self.entries[i]
    }

    /// The position of the job named `name`, if there is one.
    fn position(&self, name: &String) -> (r: Option<usize>)
        ensures
            match r {
                Some(i) => i < self@.len() && self@[i as int].0@ == name@,
                None => forall|j: int| 0 <= j < self@.len() ==> #[trigger] self@[j].0@ != name@,
            },
    {
        let n = self.entries.len();
        let mut i: usize = 0;
        while i < n
            invariant
                n == self.entries@.len(),
                i <= n,
                forall|j: int| 0 <= j < i ==> #[trigger] self.entries@[j].0@ != name@,
            decreases n - i,
        {
            if self.entries[i].0 == *name {
                return Some(i);
            }
            i = i + 1;
        }
        None
    }

    /// Puts `job` under `name`, in place of the job of that name if there is one.
    pub fn insert(&mut self, name: String, job: JobSpecification)
        ensures
            final(self)@ == with_job(old(self)@, (name, job)),
    {
        proof {
            use_type_invariant(&*self);
        }
        let ghost old_entries = self.entries@;
        let ghost key = name@;
        assert(job_names_distinct(old_entries));
        assert(self@ == old_entries);
        let found = self.position(&name);
        assert(found is None ==> forall|j: int|
            0 <= j < self@.len() ==> #[trigger] self@[j].0@ != key);
        assert(found is None ==> forall|j: int|
            0 <= j < old_entries.len() ==> #[trigger] old_entries[j].0@ != key);
        let mut entries: Vec<(String, JobSpecification)> = Vec::new();
        std::mem::swap(&mut entries, &mut self.entries);
        match found {
            Some(k) => {
                proof {
                    let c = choose|c: int| 0 <= c < old_entries.len() && #[trigger] old_entries[c].0@ == key;
                    assert(c == k) by {
                        if c != k as int {
                            assert(old_entries[c].0@ != old_entries[k as int].0@);
                        }
                    }
                    let updated = old_entries.update(k as int, (name, job));
                    assert forall|a: int, b: int|
                        0 <= a < updated.len() && 0 <= b < updated.len() && a != b
                        implies #[trigger] updated[a].0@ != #[trigger] updated[b].0@ by {
                        assert(updated[a].0@ == old_entries[a].0@);
                        assert(updated[b].0@ == old_entries[b].0@);
                    }
                }
                entries.set(k, (name, job));
            },
            None => {
                proof {
                    let pushed = old_entries.push((name, job));
                    assert forall|a: int, b: int|
                        0 <= a < pushed.len() && 0 <= b < pushed.len() && a != b
                        implies #[trigger] pushed[a].0@ != #[trigger] pushed[b].0@ by {
                        if a < old_entries.len() {
                            assert(pushed[a] == old_entries[a]);
                            assert(old_entries[a].0@ != key);
                        } else {
                            assert(pushed[a].0@ == key);
                        }
                        if b < old_entries.len() {
                            assert(pushed[b] == old_entries[b]);
                            assert(old_entries[b].0@ != key);
                        } else {
                            assert(pushed[b].0@ == key);
                        }
                    }
                }
                entries.push((name, job));
            },
        }
        self.entries = entries;
    }

    /// The jobs that putting `entries` in turn under their names gives; where a name occurs
    /// twice, the later job replaces the earlier, as in a map.
    pub fn from_entries(entries: Vec<(String, JobSpecification)>) -> (r: Jobs)
        ensures
            r@ == jobs_from(entries@),
    {
        let ghost all = entries@;
        let mut rest = entries;
        let mut jobs = Jobs::new();
        let n = rest.len();
        let mut taken: usize = 0;
        while taken < n
            invariant
                n == all.len(),
                taken <= n,
                rest@ == all.subrange(taken as int, n as int),
                jobs@ == jobs_from(all.take(taken as int)),
            decreases n - taken,
        {
            let (name, job) = rest.remove(0);
            proof {
                assert(all.take(taken + 1).drop_last() =~= all.take(taken as int));
                assert(all.take(taken + 1).last() == all[taken as int]);
                assert(rest@ =~= all.subrange(taken + 1, n as int));
            }
            jobs.insert(name, job);
            taken = taken + 1;
        }
        proof {
            assert(all.take(n as int) =~= all);
        }
        jobs
    }

    /// The jobs, each with its name, in their order.
    pub fn into_entries(self) -> (r: Vec<(String, JobSpecification)>)
        ensures
            r@ == self@,
    {
        self.entries
    }
}

/// The configuration file.
#[derive(Debug)]
pub struct Config {
    /// A file to append the log to; the magic value `$STDERR` sends it to stderr, and without
    /// it the log goes to syslog.
    pub log_file: Option<String>,
    /// The log level of kwon itself; `info` by default.
    pub log_level: Option<CustomLogLevel>,
    /// The seconds between the iterations of the main loop; 60 by default.
    pub tick_rate_seconds: Option<u64>,
    /// The file that holds the run history; `/var/lib/kwon/history.json` by default.
    pub state_file_location: Option<String>,
    /// The jobs, each under a name of its own.
    pub jobs: Jobs,
}

/// Where the log goes.
#[derive(Debug, PartialEq, Eq)]
pub enum ResolvedLogBackend {
    Stderr,
    Syslog,
    File { path: String },
}

/// The logging that a configuration asks for.
#[derive(Debug, PartialEq, Eq)]
pub struct ResolvedLogConfig {
    pub level: LevelFilter,
    pub backend: ResolvedLogBackend,
}

/// The log level of a configuration: the configured one, `Info` when there is none.
pub open spec fn resolved_level(log_level: Option<CustomLogLevel>) -> LevelFilter {
    match log_level {
        Some(l) => level_filter_of(l),
        None => LevelFilter::Info,
    }
}

/// Where a configuration sends the log: stderr for the magic file name, the named file for
/// any other, syslog when no file is named.
pub open spec fn resolved_backend(log_file: Option<String>) -> ResolvedLogBackend {
    match log_file {
        Some(file) => if file@ == STDERR_LOG_FILE@ {
            ResolvedLogBackend::Stderr
        } else {
            ResolvedLogBackend::File { path: file }
        },
        None => ResolvedLogBackend::Syslog,
    }
}

/// The path given, or `default` when none is.
pub open spec fn path_or(custom: Option<String>, default: Seq<char>) -> Seq<char> {
    match custom {
        Some(p) => p@,
        None => default,
    }
}

/// Decides the logging backend and level that a configuration asks for.
pub fn resolve_log_config(config: &Config) -> (r: ResolvedLogConfig)
    ensures
        r.level == resolved_level(config.log_level),
        r.backend == resolved_backend(config.log_file),
{
    let level = match &config.log_level {
        Some(l) => l.to_level_filter(),
        None => LevelFilter::Info,
    };
    let backend = match &config.log_file {
        Some(file) => {
            let marker = String::from_str(STDERR_LOG_FILE);
            if *file == marker {
                ResolvedLogBackend::Stderr
            } else {
                ResolvedLogBackend::File { path: file.clone() }
            }
        },
        None => ResolvedLogBackend::Syslog,
    };
    ResolvedLogConfig { level, backend }
}

impl Config {
    /// The configuration file to read: the one named on the command line, or the default.
    pub fn get_path_or_default(custom_path: &Option<String>) -> (r: String)
        ensures
            r@ == path_or(*custom_path, DEFAULT_CONFIG_PATH@),
    {
        match custom_path {
            Some(p) => p.clone(),
            None => String::from_str(DEFAULT_CONFIG_PATH),
        }
    }

    /// The seconds between the iterations of the main loop: the configured rate, or 60.
    pub fn tick_rate(&self) -> (r: u64)
        ensures
            r == match self.tick_rate_seconds {
                Some(t) => t,
                None => 60,
            },
    {
        match self.tick_rate_seconds {
            Some(t) => t,
            None => 60,
        }
    }
}

} // verus!

verus! {

/// The logging level is the one the configuration names: `debug`, `info` and `warn` let
/// through debug, info and warning messages and up, and a configuration that names none logs
/// at `info`.
pub proof fn law_log_level_is_the_configured_one(level: CustomLogLevel)
    ensures
        resolved_level(Some(level)) == level_filter_of(level),
        resolved_level(None) == LevelFilter::Info,
        level == CustomLogLevel::Debug ==> resolved_level(Some(level)) == LevelFilter::Debug,
        level == CustomLogLevel::Info ==> resolved_level(Some(level)) == LevelFilter::Info,
        level == CustomLogLevel::Warn ==> resolved_level(Some(level)) == LevelFilter::Warn,
{
}

} // verus!
