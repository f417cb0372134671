use kwon::config::ResolvedLogBackend;
use kwon::doctor::{LogProbe, LoggingCheck, check_logging_config, checks_report, logging_probe};
use kwon::install::{InstallStep, SystemctlPurpose, install_plan, systemd_unit};
use kwon::job::{JobError, job_outcome};

const UNIT: &str = "[Unit]
Description=kwon job scheduler
After=network.target

[Service]
Type=simple
ExecStart=/usr/local/bin/kwon daemon
Restart=on-failure
RestartSec=5

[Install]
WantedBy=multi-user.target
";

#[test]
fn unit_runs_the_binary_as_a_daemon() {
    assert_eq!(systemd_unit("/usr/local/bin/kwon"), UNIT);
}

fn systemctl(purpose: SystemctlPurpose, args: &[&str]) -> InstallStep {
    InstallStep::Systemctl { purpose, args: args.iter().map(|s| s.to_string()).collect() }
}

#[test]
fn fresh_install_creates_everything() {
    let steps = install_plan("/usr/local/bin/kwon", "/etc/kwon", false, false, false);
    assert_eq!(steps.len(), 7);
    assert_eq!(steps[0], InstallStep::CreateConfigDir { path: "/etc/kwon".to_string() });
    match &steps[1] {
        InstallStep::WriteDefaultConfig { path, contents } => {
            assert_eq!(path, "/etc/kwon/jobs.toml");
            assert!(contents.starts_with("# kwon configuration file\n"));
            assert!(contents.contains("# start_at = \"2026-01-01T00:00:00+00:00\"\n"));
        }
        other => panic!("unexpected step {other:?}"),
    }
    assert_eq!(steps[2], InstallStep::CreateStateDir { path: "/var/lib/kwon".to_string() });
    assert_eq!(
        steps[3],
        InstallStep::WriteSystemdUnit {
            path: "/etc/systemd/system/kwon.service".to_string(),
            contents: UNIT.to_string(),
        }
    );
    assert_eq!(steps[4], systemctl(SystemctlPurpose::ReloadDaemon, &["daemon-reload"]));
    assert_eq!(steps[5], systemctl(SystemctlPurpose::Enable, &["enable", "kwon"]));
    assert_eq!(steps[6], systemctl(SystemctlPurpose::Start, &["start", "kwon"]));
}

#[test]
fn existing_config_is_kept() {
    let steps = install_plan("/usr/local/bin/kwon", "/etc/kwon", true, true, true);
    assert_eq!(steps.len(), 5);
    assert_eq!(
        steps[0],
        InstallStep::KeepExistingConfig { path: "/etc/kwon/jobs.toml".to_string() }
    );
    assert!(matches!(steps[1], InstallStep::WriteSystemdUnit { .. }));
}

#[test]
fn job_outcome_follows_the_exit() {
    assert_eq!(job_outcome("j", Ok((true, "exit status: 0".to_string()))), Ok(()));
    assert_eq!(
        job_outcome("j", Ok((false, "exit status: 3".to_string()))),
        Err(JobError::NonZeroExit { name: "j".to_string(), status: "exit status: 3".to_string() })
    );
    assert_eq!(
        job_outcome("j", Err("no child".to_string())),
        Err(JobError::Wait { message: "no child".to_string() })
    );
}

#[test]
fn doctor_probes_follow_the_backend() {
    let file = ResolvedLogBackend::File { path: "/var/log/kwon.log".to_string() };
    assert_eq!(
        logging_probe(&file),
        LogProbe::OpenFile { path: "/var/log/kwon.log".to_string() }
    );
    assert_eq!(logging_probe(&ResolvedLogBackend::Syslog), LogProbe::ConnectSyslog);
    assert_eq!(logging_probe(&ResolvedLogBackend::Stderr), LogProbe::Nothing);
}

#[test]
fn doctor_checks_report_the_probe() {
    let file = ResolvedLogBackend::File { path: "/x.log".to_string() };
    let mut checks = Vec::new();
    check_logging_config(&mut checks, &file, Ok(()));
    check_logging_config(&mut checks, &file, Err("denied".to_string()));
    check_logging_config(&mut checks, &ResolvedLogBackend::Syslog, Ok(()));
    check_logging_config(&mut checks, &ResolvedLogBackend::Syslog, Err("no socket".to_string()));
    check_logging_config(&mut checks, &ResolvedLogBackend::Stderr, Ok(()));
    assert_eq!(
        checks,
        vec![
            LoggingCheck::LogFileAccessible,
            LoggingCheck::InvalidLogFile { path: "/x.log".to_string(), error: "denied".to_string() },
            LoggingCheck::SyslogConnected,
            LoggingCheck::SyslogUnreachable { error: "no socket".to_string() },
        ]
    );
}

#[test]
fn installing_again_keeps_the_config_and_writes_the_same_unit() {
    let first = install_plan("/usr/local/bin/kwon", "/etc/kwon", false, false, false);
    let again = install_plan("/usr/local/bin/kwon", "/etc/kwon", true, true, true);
    assert!(!again.iter().any(|s| matches!(s, InstallStep::WriteDefaultConfig { .. })));
    let unit_of = |steps: &[InstallStep]| {
        steps
            .iter()
            .find_map(|s| match s {
                InstallStep::WriteSystemdUnit { contents, .. } => Some(contents.clone()),
                _ => None,
            })
            .unwrap()
    };
    assert_eq!(unit_of(&first), unit_of(&again));
}

#[test]
fn doctor_check_lines() {
    assert_eq!(LoggingCheck::LogFileAccessible.message(), "✅ log file is accessible");
    assert_eq!(
        LoggingCheck::InvalidLogFile {
            path: "/var/log/k\"x.log".to_string(),
            error: "Os { code: 13 }".to_string()
        }
        .message(),
        "⛔️ invalid log file path (\"/var/log/k\\\"x.log\") provided: Os { code: 13 }"
    );
    assert_eq!(LoggingCheck::SyslogConnected.message(), "✅ connected to syslog successfully");
    assert_eq!(
        LoggingCheck::SyslogUnreachable { error: "Io".to_string() }.message(),
        "⛔️ could not connect to syslog: Io"
    );
    assert_eq!(
        checks_report(&vec![LoggingCheck::LogFileAccessible, LoggingCheck::SyslogConnected]),
        " - ✅ log file is accessible\n - ✅ connected to syslog successfully\n"
    );
    assert_eq!(checks_report(&Vec::new()), "");
}
