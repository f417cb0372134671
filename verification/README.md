# kwon

A cron-like job manager for single-user Linux machines. Each job runs every
`interval_seconds`, starting at `start_at`; the daemon wakes up every tick, reads its
configuration again, runs the jobs that are due (at most 20 at a time, for at most one tick),
and records each successful run in a history file.

- `src/` is the library, verified with Verus: points in time (`time`), the configuration and
  its defaults (`config`), the run history (`history`), the daemon's decisions on each tick
  (`daemon`), a job's result (`job`), the doctor's logging checks (`doctor`) and the systemd
  installation plan (`install`). The `law_*` proof functions state the properties that hold
  across calls.
- `app/` is the `kwon` program around it: the command line (clap), reading the TOML
  configuration and the JSON history (toml, serde_json), installing the logger (env_logger,
  ftail, syslog), running processes and the tick loop (tokio), and the doctor report.
- `tests/` runs the library on concrete values.
