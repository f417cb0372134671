use kwon::config::{
    CommandError, CommandPlan, Commands, Config, CustomLogLevel, JobSpecification, Jobs,
    LevelFilter, ResolvedLogBackend, resolve_log_config,
};

fn config(log_file: Option<&str>, log_level: Option<CustomLogLevel>) -> Config {
    Config {
        log_file: log_file.map(|s| s.to_string()),
        log_level,
        tick_rate_seconds: None,
        state_file_location: None,
        jobs: Jobs::new(),
    }
}

#[test]
fn install_needs_the_systemd_flag() {
    assert_eq!(Commands::Install { systemd: Some(true) }.plan(), Ok(CommandPlan::InstallSystemd));
    assert_eq!(
        Commands::Install { systemd: Some(false) }.plan(),
        Err(CommandError::SystemdFlagRequired)
    );
    assert_eq!(Commands::Install { systemd: None }.plan(), Err(CommandError::SystemdFlagRequired));
    assert_eq!(Commands::Daemon.plan(), Ok(CommandPlan::RunDaemon));
    assert_eq!(Commands::Doctor.plan(), Ok(CommandPlan::PrintDoctor));
}

#[test]
fn configured_levels_map_to_filters() {
    assert_eq!(CustomLogLevel::Debug.to_level_filter(), LevelFilter::Debug);
    assert_eq!(CustomLogLevel::Info.to_level_filter(), LevelFilter::Info);
    assert_eq!(CustomLogLevel::Warn.to_level_filter(), LevelFilter::Warn);
}

#[test]
fn logging_defaults_to_syslog_at_info() {
    let r = resolve_log_config(&config(None, None));
    assert_eq!(r.level, LevelFilter::Info);
    assert_eq!(r.backend, ResolvedLogBackend::Syslog);
}

#[test]
fn magic_log_file_sends_the_log_to_stderr() {
    let r = resolve_log_config(&config(Some("$STDERR"), Some(CustomLogLevel::Debug)));
    assert_eq!(r.level, LevelFilter::Debug);
    assert_eq!(r.backend, ResolvedLogBackend::Stderr);
}

#[test]
fn other_log_file_is_a_file_backend() {
    let r = resolve_log_config(&config(Some("/var/log/kwon.log"), Some(CustomLogLevel::Warn)));
    assert_eq!(r.level, LevelFilter::Warn);
    assert_eq!(r.backend, ResolvedLogBackend::File { path: "/var/log/kwon.log".to_string() });
    let r = resolve_log_config(&config(Some("$STDERR "), None));
    assert_eq!(r.backend, ResolvedLogBackend::File { path: "$STDERR ".to_string() });
}

#[test]
fn config_path_defaults_to_etc() {
    assert_eq!(Config::get_path_or_default(&None), "/etc/kwon/jobs.toml");
    assert_eq!(Config::get_path_or_default(&Some("/tmp/jobs.toml".to_string())), "/tmp/jobs.toml");
}

#[test]
fn tick_rate_defaults_to_sixty() {
    let mut c = config(None, None);
    assert_eq!(c.tick_rate(), 60);
    c.tick_rate_seconds = Some(120);
    assert_eq!(c.tick_rate(), 120);
}

fn job(interval_seconds: i64) -> JobSpecification {
    JobSpecification {
        executable: "/bin/true".to_string(),
        args: None,
        environment: None,
        working_directory: None,
        start_at: kwon::time::Instant::new(0, 0),
        interval_seconds,
    }
}

#[test]
fn job_names_are_unique_and_the_later_job_wins() {
    let jobs = Jobs::from_entries(vec![
        ("a".to_string(), job(1)),
        ("b".to_string(), job(2)),
        ("a".to_string(), job(3)),
    ]);
    assert_eq!(jobs.len(), 2);
    assert_eq!(jobs.get(0).0, "a");
    assert_eq!(jobs.get(0).1.interval_seconds, 3);
    assert_eq!(jobs.get(1).0, "b");
    let mut jobs = jobs;
    jobs.insert("c".to_string(), job(4));
    jobs.insert("b".to_string(), job(5));
    let entries = jobs.into_entries();
    let names: Vec<&str> = entries.iter().map(|(n, _)| n.as_str()).collect();
    assert_eq!(names, vec!["a", "b", "c"]);
    assert_eq!(entries[1].1.interval_seconds, 5);
}
