//! The run history: when each job last ran, kept in memory and loaded from the history file.

use vstd::prelude::*;
use vstd::string::StringExecFns;

use crate::config::{DEFAULT_HISTORY_PATH, path_or};
use crate::time::{Instant, current_instant};

verus! {

/// The Unicode `White_Space` property, which `str::trim` strips and `char::is_whitespace` tests:
/// the 25 code points that the Unicode Character Database lists for it.
pub open spec fn is_white_space(c: char) -> bool {
    let n = c as u32;
    ||| 0x09 <= n <= 0x0d
    ||| n == 0x20
    ||| n == 0x85
    ||| n == 0xa0
    ||| n == 0x1680
    ||| 0x2000 <= n <= 0x200a
    ||| n == 0x2028
    ||| n == 0x2029
    ||| n == 0x202f
    ||| n == 0x205f
    ||| n == 0x3000
}

/// Whether a text holds nothing but whitespace, that is, whether it is empty once trimmed.
pub open spec fn is_blank_text(s: Seq<char>) -> bool {
    forall|i: int| 0 <= i < s.len() ==> #[trigger] is_white_space(s[i])
}

/// Whether `c` has the Unicode `White_Space` property, as `char::is_whitespace` tests it.
fn is_white_space_char(c: char) -> (r: bool)
    ensures
        r == is_white_space(c),
{
    let n = c as u32;
    (0x09 <= n && n <= 0x0d) || n == 0x20 || n == 0x85 || n == 0xa0 || n == 0x1680 || (0x2000 <= n
        && n <= 0x200a) || n == 0x2028 || n == 0x2029 || n == 0x202f || n == 0x205f || n == 0x3000
}

/// Whether `s` is empty once its leading and trailing whitespace is trimmed.
pub fn is_blank(s: &str) -> (r: bool)
    ensures
        r == is_blank_text(s@),
{
    broadcast use vstd::string::group_string_axioms;
    for c in it: s.chars()
        invariant
            it.seq() == s@,
            forall|j: int| 0 <= j < it.index() ==> #[trigger] is_white_space(it.seq()[j]),
    {
        if !is_white_space_char(c) {
            return false;
        }
    }
    true
}

} // verus!

verus! {

/// Whether no job name occurs twice among `entries`.
pub open spec fn names_distinct(entries: Seq<(String, Instant)>) -> bool {
    forall|i: int, j: int|
        0 <= i < entries.len() && 0 <= j < entries.len() && i != j ==> #[trigger] entries[i].0@
            != #[trigger] entries[j].0@
}

/// The last run of each job that `entries` record; where a name occurs twice, the later entry
/// wins.
pub open spec fn entries_map(entries: Seq<(String, Instant)>) -> Map<Seq<char>, Instant>
    decreases entries.len(),
{
    if entries.len() == 0 {
        Map::empty()
    } else {
        entries_map(entries.drop_last()).insert(entries.last().0@, entries.last().1)
    }
}

/// A name is recorded in `entries_map(entries)` exactly when some entry carries it.
pub proof fn lemma_entries_map_dom(entries: Seq<(String, Instant)>, name: Seq<char>)
    ensures
        entries_map(entries).contains_key(name) <==> exists|i: int|
            0 <= i < entries.len() && #[trigger] entries[i].0@ == name,
    decreases entries.len(),
{
    if entries.len() > 0 {
        let rest = entries.drop_last();
        lemma_entries_map_dom(rest, name);
        if entries_map(rest).contains_key(name) {
            let i = choose|i: int| 0 <= i < rest.len() && #[trigger] rest[i].0@ == name;
            assert(entries[i].0@ == name);
        }
        if exists|i: int| 0 <= i < entries.len() && #[trigger] entries[i].0@ == name {
            let i = choose|i: int| 0 <= i < entries.len() && #[trigger] entries[i].0@ == name;
            if i < entries.len() - 1 {
                assert(rest[i].0@ == name);
            }
        }
    }
}

/// Where names are distinct, each entry's time is the one recorded for its name.
pub proof fn lemma_entries_map_value(entries: Seq<(String, Instant)>, i: int)
    requires
        names_distinct(entries),
        0 <= i < entries.len(),
    ensures
        entries_map(entries).contains_key(entries[i].0@),
        entries_map(entries)[entries[i].0@] == entries[i].1,
    decreases entries.len(),
{
    let rest = entries.drop_last();
    if i < entries.len() - 1 {
        assert(rest[i] == entries[i]);
        assert(names_distinct(rest)) by {
            assert forall|a: int, b: int|
                0 <= a < rest.len() && 0 <= b < rest.len() && a != b implies #[trigger] rest[a].0@
                != #[trigger] rest[b].0@ by {
                assert(rest[a] == entries[a]);
                assert(rest[b] == entries[b]);
            }
        }
        lemma_entries_map_value(rest, i);
        assert(entries[i].0@ != entries[entries.len() - 1].0@);
    }
}

/// Replacing the time of the entry at `i`, under the same name, records the new time for that
/// name and leaves every other name as it was.
pub proof fn lemma_entries_map_update(
    entries: Seq<(String, Instant)>,
    i: int,
    entry: (String, Instant),
)
    requires
        names_distinct(entries),
        0 <= i < entries.len(),
        entry.0@ == entries[i].0@,
    ensures
        names_distinct(entries.update(i, entry)),
        entries_map(entries.update(i, entry)) == entries_map(entries).insert(entry.0@, entry.1),
    decreases entries.len(),
{
    let updated = entries.update(i, entry);
    assert(names_distinct(updated)) by {
        assert forall|a: int, b: int|
            0 <= a < updated.len() && 0 <= b < updated.len() && a != b implies #[trigger] updated[a].0@
            != #[trigger] updated[b].0@ by {
            assert(updated[a].0@ == entries[a].0@);
            assert(updated[b].0@ == entries[b].0@);
        }
    }
    let rest = entries.drop_last();
    if i == entries.len() - 1 {
        assert(updated.drop_last() =~= rest);
        assert(entries_map(updated) =~= entries_map(entries).insert(entry.0@, entry.1));
    } else {
        assert(updated.drop_last() =~= rest.update(i, entry));
        assert(names_distinct(rest)) by {
            assert forall|a: int, b: int|
                0 <= a < rest.len() && 0 <= b < rest.len() && a != b implies #[trigger] rest[a].0@
                != #[trigger] rest[b].0@ by {
                assert(rest[a] == entries[a]);
                assert(rest[b] == entries[b]);
            }
        }
        lemma_entries_map_update(rest, i, entry);
        assert(entries[i].0@ != entries.last().0@);
        assert(updated.last() == entries.last());
        assert(entries_map(updated) =~= entries_map(entries).insert(entry.0@, entry.1));
    }
}

/// The run history: the last time each job ran, by job name.
#[derive(Debug)]
pub struct HistoryFile {
    jobs: Vec<(String, Instant)>,
}

impl HistoryFile {
    #[verifier::type_invariant]
    spec fn names_are_distinct(self) -> bool {
        names_distinct(self.jobs@)
    }
}

impl View for HistoryFile {
    type V = Map<Seq<char>, Instant>;

    closed spec fn view(&self) -> Map<Seq<char>, Instant> {
        entries_map(self.jobs@)
    }
}

/// The last run of `name` in a history, if any.
pub open spec fn last_run_in(history: Map<Seq<char>, Instant>, name: Seq<char>) -> Option<Instant> {
    if history.contains_key(name) {
        Some(history[name])
    } else {
        None
    }
}

impl HistoryFile {
    /// An empty history.
    pub fn new() -> (h: HistoryFile)
        ensures
            h@ == Map::<Seq<char>, Instant>::empty(),
    {
        HistoryFile { jobs: Vec::new() }
    }

    /// The position of `name` among the entries, if it is there.
    fn position(&self, name: &String) -> (r: Option<usize>)
        ensures
            match r {
                Some(i) => i < self.jobs@.len() && self.jobs@[i as int].0@ == name@,
                None => forall|j: int|
                    0 <= j < self.jobs@.len() ==> #[trigger] self.jobs@[j].0@ != name@,
            },
    {
        let n = self.jobs.len();
        let mut i: usize = 0;
        while i < n
            invariant
                n == self.jobs@.len(),
                i <= n,
                forall|j: int| 0 <= j < i ==> #[trigger] self.jobs@[j].0@ != name@,
            decreases n - i,
        {
            if self.jobs[i].0 == *name {
                return Some(i);
            }
            i = i + 1;
        }
        None
    }

    /// The last run recorded for `name`, if any.
    pub fn get(&self, name: &String) -> (r: Option<Instant>)
        ensures
            r == last_run_in(self@, name@),
    {
        proof {
            use_type_invariant(self);
            lemma_entries_map_dom(self.jobs@, name@);
        }
        match self.position(name) {
            Some(i) => {
                proof {
                    lemma_entries_map_value(self.jobs@, i as int);
                }
                Some(self.jobs[i].1)
            },
            None => None,
        }
    }

    /// Records that `name` last ran at `at`, replacing what was recorded for it before.
    pub fn insert(&mut self, name: String, at: Instant)
        ensures
            final(self)@ == old(self)@.insert(name@, at),
    {
        proof {
            use_type_invariant(&*self);
        }
        let ghost old_jobs = self.jobs@;
        assert(names_distinct(old_jobs));
        let found = self.position(&name);
        let mut jobs: Vec<(String, Instant)> = Vec::new();
        std::mem::swap(&mut jobs, &mut self.jobs);
        assert(jobs@ == old_jobs);
        match found {
            Some(i) => {
                proof {
                    lemma_entries_map_update(old_jobs, i as int, (name, at));
                }
                jobs.set(i, (name, at));
            },
            None => {
                let ghost key = name@;
                proof {
                    assert(names_distinct(old_jobs.push((name, at)))) by {
                        let pushed = old_jobs.push((name, at));
                        assert forall|a: int, b: int|
                            0 <= a < pushed.len() && 0 <= b < pushed.len() && a != b
                            implies #[trigger] pushed[a].0@ != #[trigger] pushed[b].0@ by {
                            if a < old_jobs.len() {
                                assert(pushed[a] == old_jobs[a]);
                                assert(old_jobs[a].0@ != key);
                            } else {
                                assert(pushed[a].0@ == key);
                            }
                            if b < old_jobs.len() {
                                assert(pushed[b] == old_jobs[b]);
                                assert(old_jobs[b].0@ != key);
                            } else {
                                assert(pushed[b].0@ == key);
                            }
                            if a < old_jobs.len() && b < old_jobs.len() {
                                assert(old_jobs[a].0@ != old_jobs[b].0@);
                            }
                        }
                    }
                    assert(old_jobs.push((name, at)).drop_last() =~= old_jobs);
                }
                jobs.push((name, at));
            },
        }
        self.jobs = jobs;
    }

    /// A history holding `entries`; where a name occurs twice, the later entry wins.
    pub fn from_entries(entries: Vec<(String, Instant)>) -> (h: HistoryFile)
        ensures
            h@ == entries_map(entries@),
    {
        let mut h = HistoryFile::new();
        let n = entries.len();
        let mut i: usize = 0;
        while i < n
            invariant
                n == entries@.len(),
                i <= n,
                h@ == entries_map(entries@.take(i as int)),
            decreases n - i,
        {
            let name = entries[i].0.clone();
            proof {
                assert(entries@.take(i + 1).drop_last() =~= entries@.take(i as int));
            }
            h.insert(name, entries[i].1);
            i = i + 1;
        }
        proof {
            assert(entries@.take(n as int) =~= entries@);
        }
        h
    }

    /// The entries of the history, one per job name.
    pub fn entries(&self) -> (r: Vec<(String, Instant)>)
        ensures
            names_distinct(r@),
            entries_map(r@) == self@,
    {
        proof {
            use_type_invariant(self);
        }
        let mut r: Vec<(String, Instant)> = Vec::new();
        let n = self.jobs.len();
        let mut i: usize = 0;
        while i < n
            invariant
                n == self.jobs@.len(),
                i <= n,
                r@ =~= self.jobs@.take(i as int),
            decreases n - i,
        {
            let name = self.jobs[i].0.clone();
            r.push((name, self.jobs[i].1));
            i = i + 1;
        }
        proof {
            assert(self.jobs@.take(n as int) =~= self.jobs@);
        }
        r
    }
}

} // verus!

verus! {

/// Why the history could not be loaded.
#[derive(Debug, PartialEq, Eq)]
pub enum HistoryError {
    /// The history file holds text that is not a valid history.
    Decode { message: String },
}

/// The run history together with the file it is kept in.
#[derive(Debug)]
pub struct HistoryDatabase {
    resolved_path: String,
    history: HistoryFile,
}

/// What a history database holds: the path of its file, and the last run of each job.
pub struct HistoryDatabaseView {
    pub path: Seq<char>,
    pub runs: Map<Seq<char>, Instant>,
}

impl View for HistoryDatabase {
    type V = HistoryDatabaseView;

    closed spec fn view(&self) -> HistoryDatabaseView {
        HistoryDatabaseView { path: self.resolved_path@, runs: self.history@ }
    }
}

impl HistoryDatabase {
    /// The history file to use: the configured one, or `/var/lib/kwon/history.json`.
    pub fn resolve_path(custom_path: &Option<String>) -> (r: String)
        ensures
            r@ == path_or(*custom_path, DEFAULT_HISTORY_PATH@),
    {
        match custom_path {
            Some(p) => p.clone(),
            None => String::from_str(DEFAULT_HISTORY_PATH),
        }
    }

    /// The database for the history file at `resolved_path`, whose text is `contents` and
    /// whose decoding as a history is `decoded`: an empty history when the text is blank,
    /// the decoded history otherwise, and the decoding error when it could not be decoded.
    pub fn get_or_default(
        resolved_path: String,
        contents: &str,
        decoded: Result<HistoryFile, String>,
    ) -> (r: Result<HistoryDatabase, HistoryError>)
        ensures
            is_blank_text(contents@) ==> (r matches Ok(db) && db@ == HistoryDatabaseView {
                path: resolved_path@,
                runs: Map::empty(),
            }),
            !is_blank_text(contents@) ==> match decoded {
                Ok(h) => (r matches Ok(db) && db@ == HistoryDatabaseView {
                    path: resolved_path@,
                    runs: h@,
                }),
                Err(e) => r == Err::<HistoryDatabase, HistoryError>(
                    HistoryError::Decode { message: e },
                ),
            },
    {
        if is_blank(contents) {
            return Ok(HistoryDatabase { resolved_path, history: HistoryFile::new() });
        }
        match decoded {
            Ok(history) => Ok(HistoryDatabase { resolved_path, history }),
            Err(message) => Err(HistoryError::Decode { message }),
        }
    }

    /// The file that the history is kept in.
    pub fn resolved_path(&self) -> (r: &String)
        ensures
            r@ == self@.path,
    {
        &self.resolved_path
    }

    /// The history itself.
    pub fn history(&self) -> (r: &HistoryFile)
        ensures
            r@ == self@.runs,
    {
        &self.history
    }

    /// The last known time that the job `job_id` ran, or `None` if it has no entry.
    pub fn get_last_run(&self, job_id: &str) -> (r: Option<Instant>)
        ensures
            r == last_run_in(self@.runs, job_id@),
    {
        let name = job_id.to_owned();
        self.history.get(&name)
    }

    /// Records that the job `job_id` ran at `at`.
    pub fn record_run(&mut self, job_id: &str, at: Instant)
        ensures
            final(self)@ == (HistoryDatabaseView {
                path: old(self)@.path,
                runs: old(self)@.runs.insert(job_id@, at),
            }),
    {
        let name = job_id.to_owned();
        self.history.insert(name, at);
    }

    /// Records that the job `job_id` ran now, and returns the time recorded, which the caller
    /// then persists to the history file.
    pub fn write_last_run(&mut self, job_id: &str) -> (at: Instant)
        ensures
            final(self)@ == (HistoryDatabaseView {
                path: old(self)@.path,
                runs: old(self)@.runs.insert(job_id@, at),
            }),
            at.nanos < 1_000_000_000,
    {
        let at = current_instant();
        self.record_run(job_id, at);
        at
    }
}

/// Reading a history back after a run was recorded for a job gives that run's time for the
/// job, and what was recorded before for every other job.
pub proof fn law_read_after_record(
    history: Map<Seq<char>, Instant>,
    job: Seq<char>,
    other: Seq<char>,
    at: Instant,
)
    ensures
        last_run_in(history.insert(job, at), job) == Some(at),
        other != job ==> last_run_in(history.insert(job, at), other) == last_run_in(history, other),
{
}

/// The entries that are written out for a history describe it exactly: each entry's time is
/// what the history gives back for its job, and every job that the history knows has an entry.
pub proof fn law_entries_describe_history(entries: Seq<(String, Instant)>, name: Seq<char>)
    requires
        names_distinct(entries),
    ensures
        forall|i: int|
            0 <= i < entries.len() ==> last_run_in(entries_map(entries), #[trigger] entries[i].0@)
                == Some(entries[i].1),
        entries_map(entries).contains_key(name) ==> exists|i: int|
            0 <= i < entries.len() && #[trigger] entries[i].0@ == name,
{
    assert forall|i: int| 0 <= i < entries.len() implies last_run_in(
        entries_map(entries),
        #[trigger] entries[i].0@,
    ) == Some(entries[i].1) by {
        lemma_entries_map_value(entries, i);
    }
    lemma_entries_map_dom(entries, name);
}

/// Every job that a list of entries records has its time from one of the entries that carry
/// its name.
proof fn lemma_entries_map_value_from_entry(entries: Seq<(String, Instant)>, name: Seq<char>)
    requires
        entries_map(entries).contains_key(name),
    ensures
        exists|j: int|
            0 <= j < entries.len() && #[trigger] entries[j].0@ == name && entries[j].1
                == entries_map(entries)[name],
    decreases entries.len(),
{
    let rest = entries.drop_last();
    if entries.last().0@ == name {
        assert(entries[entries.len() - 1].0@ == name);
    } else {
        lemma_entries_map_value_from_entry(rest, name);
        let j = choose|j: int|
            0 <= j < rest.len() && #[trigger] rest[j].0@ == name && rest[j].1 == entries_map(
                rest,
            )[name];
        assert(entries[j] == rest[j]);
    }
}

/// Loading a history back from the entries written for it, listed in any order, gives back the
/// history that was written: the same jobs, each with the same last run.
pub proof fn law_reload_gives_back_history(
    written: Seq<(String, Instant)>,
    read: Seq<(String, Instant)>,
)
    requires
        names_distinct(written),
        forall|i: int|
            0 <= i < read.len() ==> exists|j: int|
                0 <= j < written.len() && #[trigger] written[j].0@ == #[trigger] read[i].0@
                    && written[j].1 == read[i].1,
        forall|j: int|
            0 <= j < written.len() ==> exists|i: int|
                0 <= i < read.len() && #[trigger] read[i].0@ == #[trigger] written[j].0@
                    && read[i].1 == written[j].1,
    ensures
        entries_map(read) == entries_map(written),
        forall|name: Seq<char>|
            #[trigger] last_run_in(entries_map(read), name) == last_run_in(
                entries_map(written),
                name,
            ),
{
    assert forall|name: Seq<char>|
        entries_map(read).contains_key(name) == entries_map(written).contains_key(name) by {
        lemma_entries_map_dom(read, name);
        lemma_entries_map_dom(written, name);
        if entries_map(read).contains_key(name) {
            let i = choose|i: int| 0 <= i < read.len() && #[trigger] read[i].0@ == name;
            let j = choose|j: int|
                0 <= j < written.len() && #[trigger] written[j].0@ == #[trigger] read[i].0@
                    && written[j].1 == read[i].1;
            assert(written[j].0@ == name);
        }
        if entries_map(written).contains_key(name) {
            let j = choose|j: int| 0 <= j < written.len() && #[trigger] written[j].0@ == name;
            let i = choose|i: int|
                0 <= i < read.len() && #[trigger] read[i].0@ == #[trigger] written[j].0@
                    && read[i].1 == written[j].1;
            assert(read[i].0@ == name);
        }
    }
    assert forall|name: Seq<char>| #[trigger]
        entries_map(read).contains_key(name) implies entries_map(read)[name] == entries_map(
        written,
    )[name] by {
        lemma_entries_map_value_from_entry(read, name);
        let i = choose|i: int|
            0 <= i < read.len() && #[trigger] read[i].0@ == name && read[i].1 == entries_map(
                read,
            )[name];
        let j = choose|j: int|
            0 <= j < written.len() && #[trigger] written[j].0@ == #[trigger] read[i].0@
                && written[j].1 == read[i].1;
        lemma_entries_map_value(written, j);
    }
    assert(entries_map(read) =~= entries_map(written));
}

} // verus!
