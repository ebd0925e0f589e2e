//! The measurement runner: the order in which a benchmark prepares its
//! store and performs timed inserts, the latencies it keeps, and the text it
//! sends to each backend.

use vstd::prelude::*;
use crate::decimal::{decimal, decimal_string};

verus! {

/// One of the stores whose insert latency is measured.
#[derive(Clone, Copy, Debug, PartialEq, Eq, Structural)]
pub enum Backend {
    /// A log file opened in append mode for every record.
    FlatFile,
    /// A relational table with an auto-increment key.
    RelationalWithId,
    /// The same relational table without the key column.
    RelationalNoId,
    /// An embedded database table with synchronous writes switched off.
    EmbeddedUnsynced,
}

/// What the driver of a run must do next.
#[derive(Clone, Copy, Debug, PartialEq, Eq, Structural)]
pub enum Step {
    /// Create the store if it is absent and empty it.
    Prepare,
    /// Perform one timed insert and hand its latency to `Run::record`.
    Insert,
    /// Every insert has been timed: collect the latencies with `Run::finish`.
    Done,
}

/// A progress line is due on every record whose index is a multiple of this.
pub const PROGRESS_INTERVAL: usize = 10000;

/// Name of the log file of the flat-file backend.
pub const LOG_FILE_NAME: &'static str = "my_simple_log_file";

/// Name of the database file of the embedded backend.
pub const EMBEDDED_DB_FILE: &'static str = "sync_off";

/// Where the relational backends connect.
pub const RELATIONAL_URL: &'static str = "postgresql://ethancarlsson@localhost/log_db";

/// Resets the relational table with an auto-increment key.
pub const RELATIONAL_WITH_ID_SETUP: &'static str = "
    CREATE TABLE IF NOT EXISTS log_table (
        id      SERIAL PRIMARY KEY,
        text    TEXT NOT NULL,
        time    INTEGER
    );

    DELETE FROM log_table;
";

/// Resets the relational table without a key column.
pub const RELATIONAL_NO_ID_SETUP: &'static str = "
    CREATE TABLE IF NOT EXISTS log_table (
        text    TEXT NOT NULL,
        time    INTEGER
    );

    DELETE FROM log_table;
";

/// Resets the embedded table and switches synchronous writes off.
pub const EMBEDDED_SETUP: &'static str = "
                  CREATE TABLE IF NOT EXISTS log_table (
                        text    TEXT NOT NULL,
                        time    INTEGER
                      );
                  DELETE FROM log_table;
                  PRAGMA synchronous=OFF;
                  ";

/// One relational insert; the server computes the UTC epoch timestamp.
pub const RELATIONAL_INSERT: &'static str = "INSERT INTO log_table (text, time)  VALUES ('user made a request', EXTRACT(EPOCH FROM (CURRENT_TIMESTAMP AT TIME ZONE 'UTC')));";

/// The start of one embedded insert; the epoch seconds and `EMBEDDED_INSERT_END` follow.
pub const EMBEDDED_INSERT_START: &'static str = "INSERT INTO log_table (text, time)  VALUES ('user made a request', ";

/// The end of one embedded insert.
pub const EMBEDDED_INSERT_END: &'static str = ");";

/// The start of every record of the log file; the epoch nanoseconds follow.
pub const LOG_RECORD_START: &'static str = "user made a request|";

/// The end of every record of the log file.
pub const LOG_RECORD_END: &'static str = "\n";

/// How many records a store holds after the driver has performed `steps`
/// on it, starting from any contents: preparing empties it and each insert
/// adds one record.
pub open spec fn records_after(steps: Seq<Step>) -> nat
    decreases steps.len(),
{
    if steps.len() == 0 {
        0
    } else {
        match steps.last() {
            Step::Prepare => 0,
            Step::Insert => records_after(steps.drop_last()) + 1,
            Step::Done => records_after(steps.drop_last()),
        }
    }
}

/// The record that the flat-file backend appends for a request made at
/// `epoch_nanos` nanoseconds after the Unix epoch.
pub open spec fn log_record(epoch_nanos: nat) -> Seq<char> {
    LOG_RECORD_START@ + decimal(epoch_nanos) + LOG_RECORD_END@
}

/// The statement that the embedded backend runs for a request made at
/// `epoch_secs` seconds after the Unix epoch.
pub open spec fn embedded_insert(epoch_secs: nat) -> Seq<char> {
    EMBEDDED_INSERT_START@ + decimal(epoch_secs) + EMBEDDED_INSERT_END@
}

/// The state of one benchmark run of one backend.
pub struct Run {
    backend: Backend,
    iterations: usize,
    prepared: bool,
    results: Vec<u128>,
}

impl Run {
    /// The backend under test.
    pub closed spec fn backend_spec(&self) -> Backend {
        self.backend
    }

    /// The number of timed inserts the run performs.
    pub closed spec fn planned(&self) -> nat {
        self.iterations as nat
    }

    /// Whether the store has been prepared.
    pub closed spec fn is_prepared(&self) -> bool {
        self.prepared
    }

    /// The latencies recorded so far, in nanoseconds, in insert order.
    pub closed spec fn timings(&self) -> Seq<u128> {
        self.results@
    }

    /// Nothing is timed before the store is prepared, and no more inserts
    /// than planned.
    pub open spec fn wf(&self) -> bool {
        &&& self.timings().len() <= self.planned()
        &&& !self.is_prepared() ==> self.timings().len() == 0
    }

    /// The step that is due in this state.
    pub open spec fn due(&self) -> Step {
        if !self.is_prepared() {
            Step::Prepare
        } else if self.timings().len() < self.planned() {
            Step::Insert
        } else {
            Step::Done
        }
    }

    /// The steps the driver has performed so far: the preparation, then one
    /// insert for each recorded latency.
    pub open spec fn steps_taken(&self) -> Seq<Step> {
        if !self.is_prepared() {
            Seq::empty()
        } else {
            seq![Step::Prepare] + Seq::new(self.timings().len(), |i: int| Step::Insert)
        }
    }

    /// A run of `iterations` timed inserts on `backend`, not yet prepared.
    pub fn new(backend: Backend, iterations: usize) -> (r: Run)
        ensures
            r.wf(),
            r.backend_spec() == backend,
            r.planned() == iterations,
            !r.is_prepared(),
            r.timings() == Seq::<u128>::empty(),
            r.steps_taken() == Seq::<Step>::empty(),
    {
        Run { backend, iterations, prepared: false, results: Vec::new() }
    }

    /// The backend under test.
    pub fn backend(&self) -> (r: Backend)
        ensures
            r == self.backend_spec(),
    {
        self.backend
    }

    /// The number of timed inserts the run performs.
    pub fn iterations(&self) -> (r: usize)
        ensures
            r == self.planned(),
    {
        self.iterations
    }

    /// The step that is due.
    pub fn next_step(&self) -> (r: Step)
        ensures
            r == self.due(),
    {
        if !self.prepared {
            Step::Prepare
        } else if self.results.len() < self.iterations {
            Step::Insert
        } else {
            Step::Done
        }
    }

    /// Notes that the store has been prepared.
    pub fn mark_prepared(&mut self)
        requires
            old(self).wf(),
            old(self).due() == Step::Prepare,
        ensures
            final(self).wf(),
            final(self).is_prepared(),
            final(self).backend_spec() == old(self).backend_spec(),
            final(self).planned() == old(self).planned(),
            final(self).timings() == old(self).timings(),
            final(self).steps_taken() == old(self).steps_taken().push(Step::Prepare),
    {
        self.prepared = true;
        assert(Seq::new(0, |i: int| Step::Insert) =~= Seq::<Step>::empty());
        assert(seq![Step::Prepare] + Seq::new(0, |i: int| Step::Insert) =~= seq![Step::Prepare]);
    }

    /// Keeps the latency of the insert just performed. Returns the index of
    /// that insert where a progress line is due for it.
    pub fn record(&mut self, elapsed_nanos: u128) -> (progress: Option<usize>)
        requires
            old(self).wf(),
            old(self).due() == Step::Insert,
        ensures
            final(self).wf(),
            final(self).is_prepared(),
            final(self).backend_spec() == old(self).backend_spec(),
            final(self).planned() == old(self).planned(),
            final(self).timings() == old(self).timings().push(elapsed_nanos),
            final(self).steps_taken() == old(self).steps_taken().push(Step::Insert),
            progress == (if old(self).timings().len() % (PROGRESS_INTERVAL as nat) == 0 {
                Some(old(self).timings().len() as usize)
            } else {
                None::<usize>
            }),
    {
        let index = self.results.len();
        self.results.push(elapsed_nanos);
        assert(self.steps_taken() =~= old(self).steps_taken().push(Step::Insert));
        if index % PROGRESS_INTERVAL == 0 {
            Some(index)
        } else {
            None
        }
    }

    /// The latencies of a finished run, one per planned insert, in insert
    /// order.
    pub fn finish(self) -> (r: Vec<u128>)
        requires
            self.wf(),
            self.due() == Step::Done,
        ensures
            r@ == self.timings(),
            r@.len() == self.planned(),
    {
        self.results
    }
}

/// A finished run holds one latency per planned insert, and its store holds
/// exactly one record per planned insert: the preparation emptied it and
/// every insert since then added one.
pub proof fn lemma_finished_run_matches_iterations(run: &Run)
    requires
        run.wf(),
        run.due() == Step::Done,
    ensures
        run.timings().len() == run.planned(),
        records_after(run.steps_taken()) == run.planned(),
{
    lemma_records_after_inserts(run.timings().len());
}

proof fn lemma_records_after_inserts(n: nat)
    ensures
        records_after(seq![Step::Prepare] + Seq::new(n, |i: int| Step::Insert)) == n,
    decreases n,
{
    let s = seq![Step::Prepare] + Seq::new(n, |i: int| Step::Insert);
    if n == 0 {
        assert(s =~= seq![Step::Prepare]);
        assert(s.drop_last() =~= Seq::<Step>::empty());
    } else {
        lemma_records_after_inserts((n - 1) as nat);
        assert(s.drop_last() =~= seq![Step::Prepare] + Seq::new((n - 1) as nat, |i: int| Step::Insert));
    }
}

/// The statement that creates and empties the backend's table, where it
/// has one.
pub fn setup_sql(backend: Backend) -> (r: Option<&'static str>)
    ensures
        r == (match backend {
            Backend::FlatFile => None::<&'static str>,
            Backend::RelationalWithId => Some(RELATIONAL_WITH_ID_SETUP),
            Backend::RelationalNoId => Some(RELATIONAL_NO_ID_SETUP),
            Backend::EmbeddedUnsynced => Some(EMBEDDED_SETUP),
        }),
{
    match backend {
        Backend::FlatFile => None,
        Backend::RelationalWithId => Some(RELATIONAL_WITH_ID_SETUP),
        Backend::RelationalNoId => Some(RELATIONAL_NO_ID_SETUP),
        Backend::EmbeddedUnsynced => Some(EMBEDDED_SETUP),
    }
}

/// The statement of one timed insert into the backend's table, for a
/// request made at `epoch_secs` seconds after the Unix epoch. The relational
/// backends let the server compute the time; the flat file has no table.
pub fn insert_sql(backend: Backend, epoch_secs: u64) -> (r: Option<String>)
    ensures
        backend == Backend::FlatFile <==> r is None,
        backend == Backend::RelationalWithId || backend == Backend::RelationalNoId
            ==> r is Some && r->0@ == RELATIONAL_INSERT@,
        backend == Backend::EmbeddedUnsynced
            ==> r is Some && r->0@ == embedded_insert(epoch_secs as nat),
{
    match backend {
        Backend::FlatFile => None,
        Backend::RelationalWithId | Backend::RelationalNoId => Some(String::from_str(RELATIONAL_INSERT)),
        Backend::EmbeddedUnsynced => {
            let mut s = String::from_str(EMBEDDED_INSERT_START);
            let digits = decimal_string(epoch_secs as u128);
            s.append(digits.as_str());
            s.append(EMBEDDED_INSERT_END);
            Some(s)
        },
    }
}

/// The record, newline included, that the flat-file backend appends for a
/// request made at `epoch_nanos` nanoseconds after the Unix epoch.
pub fn log_line(epoch_nanos: u128) -> (r: String)
    ensures
        r@ == log_record(epoch_nanos as nat),
{
    let mut s = String::from_str(LOG_RECORD_START);
    let digits = decimal_string(epoch_nanos);
    s.append(digits.as_str());
    s.append(LOG_RECORD_END);
    s
}

} // verus!
