//! The installation as a systemd service: the unit file and the steps, in order.

use vstd::prelude::*;
use vstd::string::StringExecFns;

use crate::config::DEFAULT_CONFIG_PATH;

verus! {

/// The directory that holds the run history.
pub const DEFAULT_STATE_DIR: &'static str = "/var/lib/kwon";

/// Where the systemd unit is written.
pub const SYSTEMD_UNIT_PATH: &'static str = "/etc/systemd/system/kwon.service";

/// The configuration file written on a fresh installation.
pub const DEFAULT_CONFIG_CONTENTS: &'static str = "# kwon configuration file
# See https://github.com/michaelhelvey/kwon for documentation.

# Uncomment to log to a file instead of syslog:
# log_file = \"/var/log/kwon.log\"

# Log level: debug, info, or warn. Default: info
# log_level = \"info\"

# How often (in seconds) kwon checks for pending jobs. Default: 60
# tick_rate_seconds = 60

# Where to store job run history. Default: /var/lib/kwon/history.json
# state_file_location = \"/var/lib/kwon/history.json\"

# Define jobs below. Example:
# [jobs.my_job]
# executable = \"/usr/bin/echo\"
# args = [\"hello from kwon\"]
# interval_seconds = 3600
# start_at = \"2026-01-01T00:00:00+00:00\"
";

/// The systemd unit up to the path of the kwon binary.
pub const UNIT_BEFORE_BINARY: &'static str = "[Unit]
Description=kwon job scheduler
After=network.target

[Service]
Type=simple
ExecStart=";

/// The systemd unit after the path of the kwon binary.
pub const UNIT_AFTER_BINARY: &'static str = " daemon
Restart=on-failure
RestartSec=5

[Install]
WantedBy=multi-user.target
";

/// The systemd unit that runs `kwon_bin daemon`.
pub open spec fn unit_text(kwon_bin: Seq<char>) -> Seq<char> {
    UNIT_BEFORE_BINARY@ + kwon_bin + UNIT_AFTER_BINARY@
}

/// The systemd unit file for the kwon binary at `kwon_bin`.
pub fn systemd_unit(kwon_bin: &str) -> (r: String)
    ensures
        r@ == unit_text(kwon_bin@),
{
    let mut unit = String::from_str(UNIT_BEFORE_BINARY);
    unit.append(kwon_bin);
    unit.append(UNIT_AFTER_BINARY);
    unit
}

/// What a `systemctl` call of the installation is for.
#[derive(Debug, Clone, Copy, PartialEq, Eq, Structural)]
pub enum SystemctlPurpose {
    ReloadDaemon,
    Enable,
    Start,
}

/// One step of the installation.
#[derive(Debug, PartialEq, Eq)]
pub enum InstallStep {
    /// Create the configuration directory and its parents.
    CreateConfigDir { path: String },
    /// Write the default configuration file.
    WriteDefaultConfig { path: String, contents: String },
    /// Leave the existing configuration file as it is.
    KeepExistingConfig { path: String },
    /// Create the state directory and its parents.
    CreateStateDir { path: String },
    /// Write the systemd unit file.
    WriteSystemdUnit { path: String, contents: String },
    /// Run `systemctl` with these arguments; the installation stops when it fails.
    Systemctl { purpose: SystemctlPurpose, args: Vec<String> },
}

/// An installation step, with its texts taken as character sequences.
pub enum InstallStepView {
    CreateConfigDir { path: Seq<char> },
    WriteDefaultConfig { path: Seq<char>, contents: Seq<char> },
    KeepExistingConfig { path: Seq<char> },
    CreateStateDir { path: Seq<char> },
    WriteSystemdUnit { path: Seq<char>, contents: Seq<char> },
    Systemctl { purpose: SystemctlPurpose, args: Seq<Seq<char>> },
}

/// The character sequences of a list of strings.
pub open spec fn string_views(strings: Seq<String>) -> Seq<Seq<char>> {
    strings.map_values(|s: String| s@)
}

impl View for InstallStep {
    type V = InstallStepView;

    open spec fn view(&self) -> InstallStepView {
        match self {
            InstallStep::CreateConfigDir { path } => InstallStepView::CreateConfigDir { path: path@ },
            InstallStep::WriteDefaultConfig { path, contents } => InstallStepView::WriteDefaultConfig {
                path: path@,
                contents: contents@,
            },
            InstallStep::KeepExistingConfig { path } => InstallStepView::KeepExistingConfig {
                path: path@,
            },
            InstallStep::CreateStateDir { path } => InstallStepView::CreateStateDir { path: path@ },
            InstallStep::WriteSystemdUnit { path, contents } => InstallStepView::WriteSystemdUnit {
                path: path@,
                contents: contents@,
            },
            InstallStep::Systemctl { purpose, args } => InstallStepView::Systemctl {
                purpose: *purpose,
                args: string_views(args@),
            },
        }
    }
}

/// The views of a list of installation steps.
pub open spec fn step_views(steps: Seq<InstallStep>) -> Seq<InstallStepView> {
    steps.map_values(|s: InstallStep| s@)
}

/// The installation of the kwon binary at `kwon_bin`, whose configuration file lives in
/// `config_dir`: create that directory unless it exists; write the default configuration unless
/// a configuration file exists, which is kept; create the state directory unless it exists;
/// write the systemd unit; then reload systemd, enable the service and start it.
pub open spec fn install_steps(
    kwon_bin: Seq<char>,
    config_dir: Seq<char>,
    config_dir_exists: bool,
    config_file_exists: bool,
    state_dir_exists: bool,
) -> Seq<InstallStepView> {
    let create_config_dir = if config_dir_exists {
        Seq::empty()
    } else {
        seq![InstallStepView::CreateConfigDir { path: config_dir }]
    };
    let config_file = if config_file_exists {
        InstallStepView::KeepExistingConfig { path: DEFAULT_CONFIG_PATH@ }
    } else {
        InstallStepView::WriteDefaultConfig {
            path: DEFAULT_CONFIG_PATH@,
            contents: DEFAULT_CONFIG_CONTENTS@,
        }
    };
    let create_state_dir = if state_dir_exists {
        Seq::empty()
    } else {
        seq![InstallStepView::CreateStateDir { path: DEFAULT_STATE_DIR@ }]
    };
    create_config_dir + seq![config_file] + create_state_dir + seq![
        InstallStepView::WriteSystemdUnit {
            path: SYSTEMD_UNIT_PATH@,
            contents: unit_text(kwon_bin),
        },
        InstallStepView::Systemctl {
            purpose: SystemctlPurpose::ReloadDaemon,
            args: seq!["daemon-reload"@],
        },
        InstallStepView::Systemctl {
            purpose: SystemctlPurpose::Enable,
            args: seq!["enable"@, "kwon"@],
        },
        InstallStepView::Systemctl {
            purpose: SystemctlPurpose::Start,
            args: seq!["start"@, "kwon"@],
        },
    ]
}

/// The steps that install the kwon binary at `kwon_bin` as a systemd service, given which of the
/// configuration directory, the configuration file and the state directory already exist.
pub fn install_plan(
    kwon_bin: &str,
    config_dir: &str,
    config_dir_exists: bool,
    config_file_exists: bool,
    state_dir_exists: bool,
) -> (r: Vec<InstallStep>)
    ensures
        step_views(r@) == install_steps(
            kwon_bin@,
            config_dir@,
            config_dir_exists,
            config_file_exists,
            state_dir_exists,
        ),
{
    let mut steps: Vec<InstallStep> = Vec::new();
    if !config_dir_exists {
        steps.push(InstallStep::CreateConfigDir { path: String::from_str(config_dir) });
    }
    if config_file_exists {
        steps.push(InstallStep::KeepExistingConfig { path: String::from_str(DEFAULT_CONFIG_PATH) });
    } else {
        steps.push(
            InstallStep::WriteDefaultConfig {
                path: String::from_str(DEFAULT_CONFIG_PATH),
                contents: String::from_str(DEFAULT_CONFIG_CONTENTS),
            },
        );
    }
    if !state_dir_exists {
        steps.push(InstallStep::CreateStateDir { path: String::from_str(DEFAULT_STATE_DIR) });
    }
    steps.push(
        InstallStep::WriteSystemdUnit {
            path: String::from_str(SYSTEMD_UNIT_PATH),
            contents: systemd_unit(kwon_bin),
        },
    );
    let mut reload: Vec<String> = Vec::new();
    reload.push(String::from_str("daemon-reload"));
    assert(string_views(reload@) =~= seq!["daemon-reload"@]);
    steps.push(InstallStep::Systemctl { purpose: SystemctlPurpose::ReloadDaemon, args: reload });
    let mut enable: Vec<String> = Vec::new();
    enable.push(String::from_str("enable"));
    enable.push(String::from_str("kwon"));
    assert(string_views(enable@) =~= seq!["enable"@, "kwon"@]);
    steps.push(InstallStep::Systemctl { purpose: SystemctlPurpose::Enable, args: enable });
    let mut start: Vec<String> = Vec::new();
    start.push(String::from_str("start"));
    start.push(String::from_str("kwon"));
    assert(string_views(start@) =~= seq!["start"@, "kwon"@]);
    steps.push(InstallStep::Systemctl { purpose: SystemctlPurpose::Start, args: start });
    assert(step_views(steps@) =~= install_steps(
        kwon_bin@,
        config_dir@,
        config_dir_exists,
        config_file_exists,
        state_dir_exists,
    ));
    steps
}

} // verus!

verus! {

/// The step that writes the systemd unit for the kwon binary at `kwon_bin`.
pub open spec fn unit_step(kwon_bin: Seq<char>) -> InstallStepView {
    InstallStepView::WriteSystemdUnit { path: SYSTEMD_UNIT_PATH@, contents: unit_text(kwon_bin) }
}

/// Installing again after an installation leaves the files as they were: once the directories
/// and the configuration file exist, the plan writes no configuration (it keeps the file) and
/// writes the same unit as any earlier installation of the same binary wrote.
pub proof fn law_install_again_keeps_files(
    kwon_bin: Seq<char>,
    config_dir: Seq<char>,
    config_dir_existed: bool,
    config_file_existed: bool,
    state_dir_existed: bool,
)
    ensures
        install_steps(kwon_bin, config_dir, true, true, true) == seq![
            InstallStepView::KeepExistingConfig { path: DEFAULT_CONFIG_PATH@ },
            unit_step(kwon_bin),
            InstallStepView::Systemctl {
                purpose: SystemctlPurpose::ReloadDaemon,
                args: seq!["daemon-reload"@],
            },
            InstallStepView::Systemctl {
                purpose: SystemctlPurpose::Enable,
                args: seq!["enable"@, "kwon"@],
            },
            InstallStepView::Systemctl {
                purpose: SystemctlPurpose::Start,
                args: seq!["start"@, "kwon"@],
            },
        ],
        install_steps(
            kwon_bin,
            config_dir,
            config_dir_existed,
            config_file_existed,
            state_dir_existed,
        ).contains(unit_step(kwon_bin)),
{
    let first = install_steps(
        kwon_bin,
        config_dir,
        config_dir_existed,
        config_file_existed,
        state_dir_existed,
    );
    let k: int = (if config_dir_existed { 0int } else { 1int }) + 1 + (if state_dir_existed {
        0int
    } else {
        1int
    });
    assert(first[k] == unit_step(kwon_bin));
    assert(install_steps(kwon_bin, config_dir, true, true, true) =~= seq![
        InstallStepView::KeepExistingConfig { path: DEFAULT_CONFIG_PATH@ },
        unit_step(kwon_bin),
        InstallStepView::Systemctl {
            purpose: SystemctlPurpose::ReloadDaemon,
            args: seq!["daemon-reload"@],
        },
        InstallStepView::Systemctl {
            purpose: SystemctlPurpose::Enable,
            args: seq!["enable"@, "kwon"@],
        },
        InstallStepView::Systemctl {
            purpose: SystemctlPurpose::Start,
            args: seq!["start"@, "kwon"@],
        },
    ]);
}

} // verus!

verus! {

/// The unit runs the given binary: its text holds the line `ExecStart=<kwon_bin> daemon`, and
/// different binaries give different units.
pub proof fn law_unit_runs_the_given_binary(kwon_bin: Seq<char>, other_bin: Seq<char>)
    ensures
        ({
            let k = UNIT_BEFORE_BINARY@.len() - 11;
            unit_text(kwon_bin).subrange(k, k + 11 + kwon_bin.len() + 8) == "\nExecStart="@
                + kwon_bin + " daemon\n"@
        }),
        unit_text(kwon_bin) == unit_text(other_bin) ==> kwon_bin == other_bin,
{
    reveal_strlit("[Unit]
Description=kwon job scheduler
After=network.target

[Service]
Type=simple
ExecStart=");
    reveal_strlit(" daemon
Restart=on-failure
RestartSec=5

[Install]
WantedBy=multi-user.target
");
    reveal_strlit("\nExecStart=");
    reveal_strlit(" daemon\n");
    let before = UNIT_BEFORE_BINARY@;
    let after = UNIT_AFTER_BINARY@;
    let k = before.len() - 11;
    assert(unit_text(kwon_bin).subrange(k, k + 11 + kwon_bin.len() + 8) =~= "\nExecStart="@
        + kwon_bin + " daemon\n"@);
    if unit_text(kwon_bin) == unit_text(other_bin) {
        assert(unit_text(kwon_bin).len() == before.len() + kwon_bin.len() + after.len());
        assert(unit_text(other_bin).len() == before.len() + other_bin.len() + after.len());
        assert(kwon_bin.len() == other_bin.len());
        assert(kwon_bin =~= unit_text(kwon_bin).subrange(
            before.len() as int,
            (before.len() + kwon_bin.len()) as int,
        ));
        assert(other_bin =~= unit_text(other_bin).subrange(
            before.len() as int,
            (before.len() + other_bin.len()) as int,
        ));
    }
}

} // verus!

verus! {

/// The default configuration is written exactly when there is no configuration file, whatever
/// else exists; an existing file is kept and never overwritten; each directory is created
/// exactly when it is missing; and every installation writes the unit.
pub proof fn law_install_steps_follow_what_exists(
    kwon_bin: Seq<char>,
    config_dir: Seq<char>,
    config_dir_exists: bool,
    config_file_exists: bool,
    state_dir_exists: bool,
)
    ensures
        ({
            let steps = install_steps(
                kwon_bin,
                config_dir,
                config_dir_exists,
                config_file_exists,
                state_dir_exists,
            );
            &&& !config_file_exists ==> steps.contains(
                InstallStepView::WriteDefaultConfig {
                    path: DEFAULT_CONFIG_PATH@,
                    contents: DEFAULT_CONFIG_CONTENTS@,
                },
            )
            &&& config_file_exists ==> steps.contains(
                InstallStepView::KeepExistingConfig { path: DEFAULT_CONFIG_PATH@ },
            )
            &&& forall|i: int|
                0 <= i < steps.len() ==> (#[trigger] steps[i] is WriteDefaultConfig
                    ==> !config_file_exists)
            &&& forall|i: int|
                0 <= i < steps.len() ==> (steps[i] is KeepExistingConfig ==> config_file_exists)
            &&& !config_dir_exists <==> steps.contains(
                InstallStepView::CreateConfigDir { path: config_dir },
            )
            &&& forall|i: int|
                0 <= i < steps.len() ==> (steps[i] is CreateConfigDir ==> !config_dir_exists)
            &&& !state_dir_exists <==> steps.contains(
                InstallStepView::CreateStateDir { path: DEFAULT_STATE_DIR@ },
            )
            &&& forall|i: int|
                0 <= i < steps.len() ==> (steps[i] is CreateStateDir ==> !state_dir_exists)
            &&& steps.contains(unit_step(kwon_bin))
        }),
{
    let steps = install_steps(
        kwon_bin,
        config_dir,
        config_dir_exists,
        config_file_exists,
        state_dir_exists,
    );
    let d: int = if config_dir_exists {
        0
    } else {
        1
    };
    let s: int = if state_dir_exists {
        0
    } else {
        1
    };
    assert(steps.len() == d + s + 5);
    assert(steps[d + 1 + s] == unit_step(kwon_bin));
    if !config_file_exists {
        assert(steps[d] == InstallStepView::WriteDefaultConfig {
            path: DEFAULT_CONFIG_PATH@,
            contents: DEFAULT_CONFIG_CONTENTS@,
        });
    } else {
        assert(steps[d] == InstallStepView::KeepExistingConfig { path: DEFAULT_CONFIG_PATH@ });
    }
    if !config_dir_exists {
        assert(steps[0] == InstallStepView::CreateConfigDir { path: config_dir });
    }
    if !state_dir_exists {
        assert(steps[d + 1] == InstallStepView::CreateStateDir { path: DEFAULT_STATE_DIR@ });
    }
    assert forall|i: int| 0 <= i < steps.len() implies {
        &&& (steps[i] is WriteDefaultConfig ==> !config_file_exists)
        &&& (steps[i] is KeepExistingConfig ==> config_file_exists)
        &&& (steps[i] is CreateConfigDir ==> !config_dir_exists)
        &&& (steps[i] is CreateStateDir ==> !state_dir_exists)
    } by {
        if i < d {
        } else if i == d {
        } else if i < d + 1 + s {
        } else {
        }
    }
}

} // verus!
