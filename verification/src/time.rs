//! Points in time, as the scheduler reads them: ordered, and subtracted, the way chrono orders
//! and subtracts its date-times, leap seconds included.

use vstd::prelude::*;

verus! {

/// Nanoseconds in one second.
pub const NANOS_PER_SECOND: i128 = 1_000_000_000;

/// Seconds in one day.
pub const SECONDS_PER_DAY: i128 = 86_400;

/// A point in time: whole seconds since the Unix epoch, and the nanoseconds past that second.
/// As in chrono, `nanos` reaches past one second only during a leap second, which then counts
/// as the last second of its day.
#[derive(Clone, Copy, Debug, PartialEq, Eq, Structural)]
pub struct Instant {
    pub secs: i64,
    pub nanos: u32,
}

/// Whether `a` comes strictly before `b`: by the second first, then by the nanoseconds.
pub open spec fn instant_before(a: Instant, b: Instant) -> bool {
    a.secs < b.secs || (a.secs == b.secs && a.nanos < b.nanos)
}

/// The second of its (UTC) day at which `t` falls.
pub open spec fn seconds_of_day(t: Instant) -> int {
    (t.secs as int) % 86_400
}

/// The leap second that a span from `earlier` to `later` holds beyond the difference of their
/// seconds: one when it starts in a leap second, minus one when it ends in one.
pub open spec fn leap_adjustment(earlier: Instant, later: Instant) -> int {
    if seconds_of_day(later) > seconds_of_day(earlier) && earlier.nanos >= 1_000_000_000 {
        1
    } else if seconds_of_day(later) < seconds_of_day(earlier) && later.nanos >= 1_000_000_000 {
        -1
    } else {
        0
    }
}

/// The nanoseconds from `earlier` to `later` (negative when `later` comes first).
pub open spec fn span_nanos(earlier: Instant, later: Instant) -> int {
    (later.secs - earlier.secs + leap_adjustment(earlier, later)) * 1_000_000_000 + later.nanos
        - earlier.nanos
}

/// The whole seconds in a span of `d` nanoseconds, rounded toward zero.
pub open spec fn whole_seconds(d: int) -> int {
    if d >= 0 {
        d / 1_000_000_000
    } else {
        -((-d) / 1_000_000_000)
    }
}

/// The whole seconds from `earlier` to `later`, rounded toward zero.
pub open spec fn seconds_between(earlier: Instant, later: Instant) -> int {
    whole_seconds(span_nanos(earlier, later))
}

/// The second of the day of an instant that is `secs` seconds from the epoch.
fn second_of_day(secs: i64) -> (r: i128)
    ensures
        r == (secs as int) % 86_400,
        0 <= r < 86_400,
{
    let s: i128 = secs as i128;
    if s >= 0 {
        s % SECONDS_PER_DAY
    } else {
        let m: i128 = (-s) % SECONDS_PER_DAY;
        proof {
            let q = (-s) / 86_400;
            vstd::arithmetic::div_mod::lemma_fundamental_div_mod(-s as int, 86_400);
            if m == 0 {
                vstd::arithmetic::div_mod::lemma_fundamental_div_mod_converse(
                    s as int,
                    86_400,
                    -q,
                    0,
                );
            } else {
                vstd::arithmetic::div_mod::lemma_fundamental_div_mod_converse(
                    s as int,
                    86_400,
                    -q - 1,
                    86_400 - m,
                );
            }
        }
        if m == 0 {
            0
        } else {
            SECONDS_PER_DAY - m
        }
    }
}

impl Instant {
    /// Builds a point in time from its parts.
    pub fn new(secs: i64, nanos: u32) -> (t: Instant)
        ensures
            t.secs == secs,
            t.nanos == nanos,
    {
        Instant { secs, nanos }
    }

    /// Whether `self` comes strictly before `other`.
    pub fn is_before(&self, other: &Instant) -> (r: bool)
        ensures
            r == instant_before(*self, *other),
    {
        self.secs < other.secs || (self.secs == other.secs && self.nanos < other.nanos)
    }

    /// The whole seconds that have passed from `earlier` to `self`, rounded toward zero;
    /// negative when `self` comes first.
    pub fn seconds_since(&self, earlier: &Instant) -> (r: i128)
        ensures
            r == seconds_between(*earlier, *self),
    {
        let later_day: i128 = second_of_day(self.secs);
        let earlier_day: i128 = second_of_day(earlier.secs);
        let adjustment: i128 = if later_day > earlier_day && earlier.nanos >= 1_000_000_000 {
            1
        } else if later_day < earlier_day && self.nanos >= 1_000_000_000 {
            -1
        } else {
            0
        };
        let d: i128 = (self.secs as i128 - earlier.secs as i128 + adjustment) * NANOS_PER_SECOND
            + self.nanos as i128 - earlier.nanos as i128;
        if d >= 0 {
            d / NANOS_PER_SECOND
        } else {
            -((-d) / NANOS_PER_SECOND)
        }
    }
}

/// The instant `secs` seconds and `nanos` nanoseconds after the epoch when `after_epoch`, that
/// long before it otherwise; `None` when its seconds do not fit an `i64`.
pub open spec fn instant_from_span(after_epoch: bool, secs: u64, nanos: u32) -> Option<Instant> {
    if after_epoch {
        if secs <= i64::MAX {
            Some(Instant { secs: secs as i64, nanos })
        } else {
            None
        }
    } else if nanos == 0 {
        if secs <= i64::MAX {
            Some(Instant { secs: -secs as i64, nanos: 0 })
        } else {
            None
        }
    } else if secs < i64::MAX {
        Some(Instant { secs: (-secs - 1) as i64, nanos: (1_000_000_000 - nanos) as u32 })
    } else {
        None
    }
}

/// The instant that a span from the epoch stands for, as chrono converts a `SystemTime`; the
/// span's nanoseconds are under one second.
pub fn from_epoch_span(after_epoch: bool, secs: u64, nanos: u32) -> (r: Option<Instant>)
    requires
        nanos < 1_000_000_000,
    ensures
        r == instant_from_span(after_epoch, secs, nanos),
        r matches Some(t) ==> t.nanos < 1_000_000_000,
{
    if secs > i64::MAX as u64 {
        return None;
    }
    let s: i64 = secs as i64;
    if after_epoch {
        Some(Instant { secs: s, nanos })
    } else if nanos == 0 {
        Some(Instant { secs: -s, nanos: 0 })
    } else if s < i64::MAX {
        Some(Instant { secs: -s - 1, nanos: 1_000_000_000 - nanos })
    } else {
        None
    }
}

/// The clock's reading, `std::time::SystemTime`, carried opaquely.
#[verifier::external_type_specification]
#[verifier::external_body]
pub struct ExSystemTime(std::time::SystemTime);

/// Calls `std::time::SystemTime::now`; nothing is claimed of the time it reads.
#[verifier::external_body]
fn system_time_now() -> (t: std::time::SystemTime) {
    std::time::SystemTime::now()
}

/// Calls `SystemTime::duration_since(UNIX_EPOCH)` on `t` and returns whether `t` is at or
/// after the epoch, with the whole seconds and the nanoseconds (`Duration::as_secs`,
/// `Duration::subsec_nanos`) of the span between them, taken from the error's `duration` when
/// `t` comes before the epoch. Claimed: the nanoseconds are under one second, as std documents
/// for `subsec_nanos`.
#[verifier::external_body]
fn span_from_epoch(t: &std::time::SystemTime) -> (r: (bool, u64, u32))
    ensures
        r.2 < 1_000_000_000,
{
    match t.duration_since(std::time::UNIX_EPOCH) {
        Ok(d) => (true, d.as_secs(), d.subsec_nanos()),
        Err(e) => (false, e.duration().as_secs(), e.duration().subsec_nanos()),
    }
}

/// Reads the system clock. Whatever it reads, the nanoseconds are under one second; a clock
/// set beyond what an `i64` of seconds holds is read as the last instant that fits.
pub(crate) fn current_instant() -> (t: Instant)
    ensures
        t.nanos < 1_000_000_000,
{
    let now = system_time_now();
    let (after_epoch, secs, nanos) = span_from_epoch(&now);
    match from_epoch_span(after_epoch, secs, nanos) {
        Some(t) => t,
        None => if after_epoch {
            Instant { secs: i64::MAX, nanos: 999_999_999 }
        } else {
            Instant { secs: i64::MIN, nanos: 0 }
        },
    }
}

} // verus!
