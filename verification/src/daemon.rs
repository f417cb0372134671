//! The decisions of the daemon loop: which jobs are due on a tick, and how long to wait.

use vstd::prelude::*;

use crate::config::{Config, JobSpecification};
use crate::history::{HistoryDatabase, last_run_in};
use crate::time::{Instant, current_instant, instant_before, seconds_between, seconds_of_day, span_nanos};

verus! {

/// The most jobs that run at the same time.
pub const MAX_CONCURRENCY: usize = 20;

/// The seconds to wait before reading the configuration again when it could not be read.
pub const RELOAD_RETRY_SECONDS: u64 = 60;

/// The whole seconds since the last run, as the daemon counts them: never below zero.
pub open spec fn elapsed_seconds(last_run: Instant, now: Instant) -> int {
    let s = seconds_between(last_run, now);
    if s > 0 {
        s
    } else {
        0
    }
}

/// Whether a job that starts at `start_at`, runs every `interval_seconds`, and last ran at
/// `last_run` is due at `now`: never before its start, always when it never ran, and otherwise
/// once more whole seconds than its interval have passed since its last run.
pub open spec fn job_due(
    start_at: Instant,
    interval_seconds: i64,
    last_run: Option<Instant>,
    now: Instant,
) -> bool {
    &&& !instant_before(now, start_at)
    &&& match last_run {
        Some(last) => elapsed_seconds(last, now) > interval_seconds,
        None => true,
    }
}

/// Whether `job` is due at `now`, given its last run.
pub fn is_job_due(job: &JobSpecification, last_run: Option<Instant>, now: Instant) -> (r: bool)
    ensures
        r == job_due(job.start_at, job.interval_seconds, last_run, now),
{
    if now.is_before(&job.start_at) {
        return false;
    }
    match last_run {
        Some(last) => {
            let s = now.seconds_since(&last);
            let elapsed: i128 = if s > 0 {
                s
            } else {
                0
            };
            elapsed > job.interval_seconds as i128
        },
        None => true,
    }
}

/// Whether the job at position `i` of `jobs` is due at `now` under `history`.
pub open spec fn due_at(
    jobs: Seq<(String, JobSpecification)>,
    history: Map<Seq<char>, Instant>,
    now: Instant,
    i: int,
) -> bool {
    job_due(jobs[i].1.start_at, jobs[i].1.interval_seconds, last_run_in(history, jobs[i].0@), now)
}

/// The positions, in order, of the jobs among the first `n` of `jobs` that are due at `now`.
pub open spec fn due_positions(
    jobs: Seq<(String, JobSpecification)>,
    history: Map<Seq<char>, Instant>,
    now: Instant,
    n: int,
) -> Seq<usize>
    decreases n,
{
    if n <= 0 {
        Seq::empty()
    } else if due_at(jobs, history, now, n - 1) {
        due_positions(jobs, history, now, n - 1).push((n - 1) as usize)
    } else {
        due_positions(jobs, history, now, n - 1)
    }
}

/// The positions of the configured jobs that are due at `now`, in the order of the configuration.
pub fn select_due_jobs(config: &Config, history: &HistoryDatabase, now: Instant) -> (r: Vec<usize>)
    ensures
        r@ == due_positions(config.jobs@, history@.runs, now, config.jobs@.len() as int),
{
    let n = config.jobs.len();
    let mut r: Vec<usize> = Vec::new();
    let mut i: usize = 0;
    while i < n
        invariant
            n == config.jobs@.len(),
            i <= n,
            r@ == due_positions(config.jobs@, history@.runs, now, i as int),
        decreases n - i,
    {
        let entry = config.jobs.get(i);
        let last = history.get_last_run(entry.0.as_str());
        if is_job_due(&entry.1, last, now) {
            r.push(i);
        }
        i = i + 1;
    }
    r
}

/// What the daemon does on a tick.
#[derive(Debug, PartialEq, Eq)]
pub enum TickPlan {
    /// The configuration could not be read: wait, then try again.
    Retry { sleep_seconds: u64 },
    /// Run the jobs at these positions of the configuration, and give them at most
    /// `timeout_seconds` to finish.
    Run { jobs: Vec<usize>, timeout_seconds: u64 },
}

/// The plan for a tick at `now`, where `config` is the configuration read again for it, or
/// `None` when it could not be read.
pub fn plan_tick_at(config: Option<&Config>, history: &HistoryDatabase, now: Instant) -> (r: TickPlan)
    ensures
        match config {
            None => r == TickPlan::Retry { sleep_seconds: RELOAD_RETRY_SECONDS },
            Some(c) => (r matches TickPlan::Run { jobs, timeout_seconds } && jobs@ == due_positions(
                c.jobs@,
                history@.runs,
                now,
                c.jobs@.len() as int,
            ) && timeout_seconds == match c.tick_rate_seconds {
                Some(t) => t,
                None => 60,
            }),
        },
{
    match config {
        None => TickPlan::Retry { sleep_seconds: RELOAD_RETRY_SECONDS },
        Some(c) => {
            let jobs = select_due_jobs(c, history, now);
            TickPlan::Run { jobs, timeout_seconds: c.tick_rate() }
        },
    }
}

/// The plan for a tick, taken at the time that the clock reads.
pub fn plan_tick(config: Option<&Config>, history: &HistoryDatabase) -> (r: TickPlan)
    ensures
        match config {
            None => r == TickPlan::Retry { sleep_seconds: RELOAD_RETRY_SECONDS },
            Some(c) => exists|now: Instant|
                {
                    &&& now.nanos < 1_000_000_000
                    &&& r matches TickPlan::Run { jobs, timeout_seconds }
                    &&& jobs@ == #[trigger] due_positions(
                        c.jobs@,
                        history@.runs,
                        now,
                        c.jobs@.len() as int,
                    )
                    &&& timeout_seconds == match c.tick_rate_seconds {
                        Some(t) => t,
                        None => 60,
                    }
                },
        },
{
    let now = current_instant();
    plan_tick_at(config, history, now)
}

/// The seconds left to wait after a batch that took `elapsed_seconds`, so that the tick lasts
/// `tick_rate` seconds; none when the batch took longer.
pub fn remaining_tick_seconds(tick_rate: u64, elapsed_seconds: u64) -> (r: u64)
    ensures
        r == if elapsed_seconds <= tick_rate {
            tick_rate - elapsed_seconds
        } else {
            0
        },
{
    tick_rate.saturating_sub(elapsed_seconds)
}

} // verus!

verus! {

/// No job is ever due before its start time.
pub proof fn law_never_due_before_start(
    start_at: Instant,
    interval_seconds: i64,
    last_run: Option<Instant>,
    now: Instant,
)
    requires
        instant_before(now, start_at),
    ensures
        !job_due(start_at, interval_seconds, last_run, now),
{
}

/// A job that has never run is due as soon as its start time has come.
pub proof fn law_never_run_is_due_from_start(start_at: Instant, interval_seconds: i64, now: Instant)
    requires
        !instant_before(now, start_at),
    ensures
        job_due(start_at, interval_seconds, None, now),
{
}

/// A job whose run was just recorded at `now` is not due again at `now`, unless its interval is
/// negative.
pub proof fn law_just_ran_not_due(start_at: Instant, interval_seconds: i64, now: Instant)
    requires
        interval_seconds >= 0,
    ensures
        !job_due(start_at, interval_seconds, Some(now), now),
{
}

/// The whole seconds in a span never decrease as the span grows.
proof fn lemma_whole_seconds_monotonic(d1: int, d2: int)
    requires
        d1 <= d2,
    ensures
        crate::time::whole_seconds(d1) <= crate::time::whole_seconds(d2),
{
    if d1 >= 0 {
        vstd::arithmetic::div_mod::lemma_div_is_ordered(d1, d2, 1_000_000_000);
    } else if d2 >= 0 {
        assert((-d1) / 1_000_000_000 >= 0) by {
            vstd::arithmetic::div_mod::lemma_div_pos_is_pos(-d1, 1_000_000_000);
        }
    } else {
        vstd::arithmetic::div_mod::lemma_div_is_ordered(-d2, -d1, 1_000_000_000);
    }
}

/// Once a job is due, it stays due as time goes on, until a new run is recorded. This holds
/// for clock readings, which never fall in a leap second, and for a last run that is either not
/// in a leap second or in one at the end of its day, as chrono's leap seconds are.
pub proof fn law_due_stays_due(
    start_at: Instant,
    interval_seconds: i64,
    last_run: Option<Instant>,
    now: Instant,
    later: Instant,
)
    requires
        job_due(start_at, interval_seconds, last_run, now),
        !instant_before(later, now),
        now.nanos < 1_000_000_000,
        later.nanos < 1_000_000_000,
        last_run matches Some(last) ==> (last.nanos < 1_000_000_000 || seconds_of_day(last)
            == 86_399),
    ensures
        job_due(start_at, interval_seconds, last_run, later),
{
    if let Some(last) = last_run {
        let total_last = last.secs * 1_000_000_000 + last.nanos;
        let total_now = now.secs * 1_000_000_000 + now.nanos;
        let total_later = later.secs * 1_000_000_000 + later.nanos;
        assert(0 <= seconds_of_day(now) < 86_400);
        assert(0 <= seconds_of_day(later) < 86_400);
        assert(span_nanos(last, now) == total_now - total_last);
        assert(span_nanos(last, later) == total_later - total_last);
        assert(total_now <= total_later);
        lemma_whole_seconds_monotonic(total_now - total_last, total_later - total_last);
    }
}

/// The jobs selected on a tick are exactly the due ones among the first `n`, each once, in the
/// order of the configuration.
pub proof fn law_selection_is_exactly_the_due_jobs(
    jobs: Seq<(String, JobSpecification)>,
    history: Map<Seq<char>, Instant>,
    now: Instant,
    n: int,
)
    requires
        0 <= n <= jobs.len(),
        n <= usize::MAX,
    ensures
        forall|k: int|
            0 <= k < due_positions(jobs, history, now, n).len() ==> {
                let p = #[trigger] due_positions(jobs, history, now, n)[k];
                &&& p < n
                &&& due_at(jobs, history, now, p as int)
            },
        forall|a: int, b: int|
            0 <= a < b < due_positions(jobs, history, now, n).len() ==> #[trigger] due_positions(
                jobs,
                history,
                now,
                n,
            )[a] < #[trigger] due_positions(jobs, history, now, n)[b],
        forall|p: int|
            0 <= p < n && due_at(jobs, history, now, p) ==> #[trigger] due_positions(
                jobs,
                history,
                now,
                n,
            ).contains(p as usize),
    decreases n,
{
    if n > 0 {
        law_selection_is_exactly_the_due_jobs(jobs, history, now, n - 1);
        let prev = due_positions(jobs, history, now, n - 1);
        let cur = due_positions(jobs, history, now, n);
        assert forall|p: int| 0 <= p < n && due_at(jobs, history, now, p) implies #[trigger] cur.contains(
            p as usize,
        ) by {
            if p < n - 1 {
                assert(prev.contains(p as usize));
                let k = choose|k: int| 0 <= k < prev.len() && prev[k] == p as usize;
                assert(cur[k] == prev[k]);
            } else {
                assert(cur[cur.len() - 1] == p as usize);
            }
        }
    }
}

/// A job whose run was just recorded at `now` is not selected again on a tick at `now`, unless
/// its interval is negative.
pub proof fn law_recorded_job_not_selected(
    jobs: Seq<(String, JobSpecification)>,
    history: Map<Seq<char>, Instant>,
    now: Instant,
    i: int,
)
    requires
        0 <= i < jobs.len() <= usize::MAX,
        jobs[i].1.interval_seconds >= 0,
    ensures
        !due_positions(jobs, history.insert(jobs[i].0@, now), now, jobs.len() as int).contains(
            i as usize,
        ),
{
    let h = history.insert(jobs[i].0@, now);
    law_selection_is_exactly_the_due_jobs(jobs, h, now, jobs.len() as int);
    assert(last_run_in(h, jobs[i].0@) == Some(now));
    law_just_ran_not_due(jobs[i].1.start_at, jobs[i].1.interval_seconds, now);
    let sel = due_positions(jobs, h, now, jobs.len() as int);
    if sel.contains(i as usize) {
        let k = choose|k: int| 0 <= k < sel.len() && sel[k] == i as usize;
        assert(due_at(jobs, h, now, sel[k] as int));
    }
}

} // verus!
