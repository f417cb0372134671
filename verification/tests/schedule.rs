use kwon::config::{Config, JobSpecification, Jobs};
use kwon::daemon::{
    MAX_CONCURRENCY, RELOAD_RETRY_SECONDS, TickPlan, is_job_due, plan_tick, plan_tick_at,
    remaining_tick_seconds, select_due_jobs,
};
use kwon::history::HistoryDatabase;
use kwon::time::{Instant, from_epoch_span};

fn job(start_secs: i64, interval_seconds: i64) -> JobSpecification {
    JobSpecification {
        executable: "/bin/true".to_string(),
        args: None,
        environment: None,
        working_directory: None,
        start_at: Instant::new(start_secs, 0),
        interval_seconds,
    }
}

fn empty_db() -> HistoryDatabase {
    HistoryDatabase::get_or_default("/tmp/h.json".to_string(), "", Err("unused".to_string()))
        .unwrap()
}

fn config_with(jobs: Vec<(String, JobSpecification)>, tick: Option<u64>) -> Config {
    Config {
        log_file: None,
        log_level: None,
        tick_rate_seconds: tick,
        state_file_location: None,
        jobs: Jobs::from_entries(jobs),
    }
}

#[test]
fn instant_ordering_counts_nanoseconds() {
    let a = Instant::new(10, 999_999_999);
    let b = Instant::new(11, 0);
    assert!(a.is_before(&b));
    assert!(!b.is_before(&a));
    assert!(!a.is_before(&a));
}

#[test]
fn seconds_since_rounds_toward_zero() {
    let a = Instant::new(100, 0);
    assert_eq!(Instant::new(101, 500_000_000).seconds_since(&a), 1);
    assert_eq!(Instant::new(98, 500_000_000).seconds_since(&a), -1);
    assert_eq!(Instant::new(99, 500_000_000).seconds_since(&a), 0);
    assert_eq!(Instant::new(110, 0).seconds_since(&a), 10);
}

#[test]
fn job_is_never_due_before_its_start() {
    let j = job(1_000, 0);
    assert!(!is_job_due(&j, None, Instant::new(999, 999_999_999)));
    assert!(!is_job_due(&j, Some(Instant::new(0, 0)), Instant::new(999, 0)));
}

#[test]
fn job_that_never_ran_is_due_from_its_start() {
    let j = job(1_000, 3_600);
    assert!(is_job_due(&j, None, Instant::new(1_000, 0)));
    assert!(is_job_due(&j, None, Instant::new(5_000, 0)));
}

#[test]
fn job_is_due_once_more_than_its_interval_has_passed() {
    let j = job(0, 10);
    let last = Some(Instant::new(100, 0));
    assert!(!is_job_due(&j, last, Instant::new(110, 500_000_000)));
    assert!(is_job_due(&j, last, Instant::new(111, 0)));
    // A last run in the future counts as no time passed.
    assert!(!is_job_due(&j, Some(Instant::new(500, 0)), Instant::new(200, 0)));
}

#[test]
fn negative_interval_is_always_due_after_start() {
    let j = job(0, -5);
    assert!(is_job_due(&j, Some(Instant::new(100, 0)), Instant::new(100, 0)));
}

#[test]
fn selection_keeps_configuration_order_and_only_due_jobs() {
    let jobs = vec![
        ("a".to_string(), job(0, 60)),
        ("b".to_string(), job(5_000, 60)),
        ("c".to_string(), job(0, 60)),
        ("d".to_string(), job(0, 60)),
    ];
    let config = config_with(jobs, None);
    let mut db = empty_db();
    db.record_run("c", Instant::new(950, 0));
    db.record_run("d", Instant::new(100, 0));
    let due = select_due_jobs(&config, &db, Instant::new(1_000, 0));
    assert_eq!(due, vec![0, 3]);
}

#[test]
fn recorded_job_is_not_selected_again_at_the_same_time() {
    let config = config_with(vec![("a".to_string(), job(0, 0))], None);
    let mut db = empty_db();
    let now = Instant::new(2_000, 0);
    assert_eq!(select_due_jobs(&config, &db, now), vec![0]);
    db.record_run("a", now);
    assert_eq!(select_due_jobs(&config, &db, now), Vec::<usize>::new());
    assert_eq!(select_due_jobs(&config, &db, Instant::new(2_001, 0)), vec![0]);
}

#[test]
fn due_job_stays_due_as_time_goes_on() {
    let j = job(0, 10);
    let last = Some(Instant::new(100, 0));
    assert!(is_job_due(&j, last, Instant::new(111, 0)));
    assert!(is_job_due(&j, last, Instant::new(1_000_000, 0)));
}

#[test]
fn tick_plan_retries_when_configuration_is_unreadable() {
    let db = empty_db();
    assert_eq!(
        plan_tick_at(None, &db, Instant::new(0, 0)),
        TickPlan::Retry { sleep_seconds: 60 }
    );
    assert_eq!(plan_tick(None, &db), TickPlan::Retry { sleep_seconds: RELOAD_RETRY_SECONDS });
}

#[test]
fn tick_plan_runs_due_jobs_with_the_tick_rate_as_timeout() {
    let db = empty_db();
    let config = config_with(vec![("a".to_string(), job(0, 60))], None);
    assert_eq!(
        plan_tick_at(Some(&config), &db, Instant::new(10, 0)),
        TickPlan::Run { jobs: vec![0], timeout_seconds: 60 }
    );
    let config = config_with(vec![("a".to_string(), job(0, 60))], Some(120));
    assert_eq!(
        plan_tick(Some(&config), &db),
        TickPlan::Run { jobs: vec![0], timeout_seconds: 120 }
    );
}

#[test]
fn remaining_tick_fills_the_tick_rate() {
    assert_eq!(remaining_tick_seconds(60, 15), 45);
    assert_eq!(remaining_tick_seconds(60, 60), 0);
    assert_eq!(remaining_tick_seconds(60, 75), 0);
}

#[test]
fn concurrency_cap_is_twenty() {
    assert_eq!(MAX_CONCURRENCY, 20);
}

#[test]
fn leap_second_start_comes_before_the_next_day() {
    // 2016-12-31T23:59:60.5Z starts a job; at 2017-01-01T00:00:00.2Z it is due.
    let leap = Instant::new(1_483_228_799, 1_500_000_000);
    let after = Instant::new(1_483_228_800, 200_000_000);
    assert!(leap.is_before(&after));
    let mut j = job(0, 0);
    j.start_at = leap;
    assert!(is_job_due(&j, None, after));
}

fn chrono_of(t: Instant) -> chrono::DateTime<chrono::Utc> {
    chrono::DateTime::from_timestamp(t.secs, t.nanos).unwrap()
}

#[test]
fn ordering_and_elapsed_seconds_agree_with_chrono() {
    let day_end = 1_483_228_799; // 2016-12-31T23:59:59Z
    let points = [
        Instant::new(day_end - 3, 0),
        Instant::new(day_end - 1, 700_000_000),
        Instant::new(day_end, 0),
        Instant::new(day_end, 400_000_000),
        Instant::new(day_end, 1_000_000_000),
        Instant::new(day_end, 1_500_000_000),
        Instant::new(day_end + 1, 0),
        Instant::new(day_end + 1, 200_000_000),
        Instant::new(day_end + 2, 900_000_000),
        Instant::new(day_end + 86_400, 1_250_000_000),
        Instant::new(-86_401, 999_999_999),
    ];
    for a in points {
        for b in points {
            assert_eq!(a.is_before(&b), chrono_of(a) < chrono_of(b), "{a:?} {b:?}");
            assert_eq!(
                b.seconds_since(&a),
                (chrono_of(b) - chrono_of(a)).num_seconds() as i128,
                "{a:?} {b:?}"
            );
        }
    }
}

#[test]
fn spans_from_the_epoch_become_instants() {
    assert_eq!(from_epoch_span(true, 1_700_000_000, 5), Some(Instant::new(1_700_000_000, 5)));
    assert_eq!(from_epoch_span(false, 3, 0), Some(Instant::new(-3, 0)));
    assert_eq!(from_epoch_span(false, 5, 250_000_000), Some(Instant::new(-6, 750_000_000)));
    assert_eq!(from_epoch_span(true, u64::MAX, 0), None);
}
