//! The orchestration core: entries in, extraction calls out, statistics
//! aggregated.
//!
//! A run enumerates the immediate children of one directory, skips every
//! entry that is not a plain file, issues one extraction call per file
//! entry under a live session, and aggregates the outcomes: the success
//! counter rises once per successful call, and every failure is kept with
//! its path for diagnostics, never aborting the rest of the batch.
//!
//! The native call itself is opaque, so a run here is driven by the
//! sequence of raw outcomes the native subsystem handed back, one per
//! dispatched file entry, in dispatch order. The unverified shell performs
//! the calls and feeds the outcomes through the same worker transitions.

use vstd::prelude::*;

use crate::bindings::NativeOutcome;
use crate::bindings::classify_outcome;
use crate::errors::GetThumbnailError;
use crate::report::RunStats;
use crate::session::SessionMode;
use crate::session::Worker;

verus! {

/// One filesystem child discovered by enumeration: its canonical path and
/// whether it is a plain file.
#[derive(Clone, Debug)]
pub struct Entry {
    pub path: String,
    pub is_file: bool,
}

/// The paths of the plain-file entries, in enumeration order; these are
/// exactly the entries a run dispatches.
pub open spec fn file_paths(s: Seq<Entry>) -> Seq<String>
    decreases s.len(),
{
    if s.len() == 0 {
        Seq::empty()
    } else {
        file_paths(s.drop_last()) + (if s.last().is_file {
            seq![s.last().path]
        } else {
            Seq::empty()
        })
    }
}

/// Selects the plain-file entries of a directory listing, keeping their
/// order; directories and special files are skipped without counting as
/// success or failure.
pub fn file_entries(entries: &Vec<Entry>) -> (v: Vec<String>)
    ensures
        v@ == file_paths(entries@),
{
    let mut v: Vec<String> = Vec::new();
    for i in 0..entries.len()
        invariant
            v@ == file_paths(entries@.take(i as int)),
    {
        if entries[i].is_file {
            v.push(entries[i].path.clone());
        }
        proof {
            assert(entries@.take(i + 1).drop_last() =~= entries@.take(i as int));
        }
    }
    proof {
        assert(entries@.take(entries@.len() as int) =~= entries@);
    }
    v
}

/// The number of plain-file entries: the most a run can index.
pub fn count_of_files(entries: &Vec<Entry>) -> (n: usize)
    ensures
        n == file_paths(entries@).len(),
{
    file_entries(entries).len()
}

/// How many outcomes in a batch reported success.
pub open spec fn count_ok(s: Seq<NativeOutcome>) -> nat
    decreases s.len(),
{
    if s.len() == 0 {
        0
    } else {
        count_ok(s.drop_last()) + (if s.last().ok {
            1nat
        } else {
            0nat
        })
    }
}

/// Whether every outcome in a batch reported success.
pub open spec fn all_ok(s: Seq<NativeOutcome>) -> bool {
    forall|i: int| 0 <= i < s.len() ==> s[i].ok
}

/// No batch reports more successes than it has outcomes.
pub proof fn lemma_count_ok_le_len(s: Seq<NativeOutcome>)
    ensures
        count_ok(s) <= s.len(),
    decreases s.len(),
{
    if s.len() > 0 {
        lemma_count_ok_le_len(s.drop_last());
    }
}

/// A batch whose outcomes all report success counts every one of them.
pub proof fn lemma_all_ok_count(s: Seq<NativeOutcome>)
    requires
        all_ok(s),
    ensures
        count_ok(s) == s.len(),
    decreases s.len(),
{
    if s.len() > 0 {
        assert(forall|i: int| 0 <= i < s.drop_last().len() ==> s.drop_last()[i] == s[i]);
        lemma_all_ok_count(s.drop_last());
    }
}

/// One failure reported by a run: the dispatched path together with the
/// error its extraction call returned.
#[derive(Clone, Debug)]
pub struct EntryFailure {
    pub path: String,
    pub error: GetThumbnailError,
}

/// The failures a run reports for a batch: one per non-success outcome, in
/// dispatch order, carrying the failing path and the raw code and message.
pub open spec fn failures_of(tasks: Seq<String>, outcomes: Seq<NativeOutcome>) -> Seq<EntryFailure>
    recommends
        tasks.len() == outcomes.len(),
    decreases outcomes.len(),
{
    if outcomes.len() == 0 || tasks.len() == 0 {
        Seq::empty()
    } else {
        failures_of(tasks.drop_last(), outcomes.drop_last()) + (if outcomes.last().ok {
            Seq::empty()
        } else {
            seq![
                EntryFailure {
                    path: tasks.last(),
                    error: GetThumbnailError {
                        code: outcomes.last().code,
                        msg: outcomes.last().msg,
                    },
                },
            ]
        })
    }
}

/// A run reports exactly as many failures as it had non-success outcomes.
pub proof fn lemma_failures_len(tasks: Seq<String>, outcomes: Seq<NativeOutcome>)
    requires
        tasks.len() == outcomes.len(),
    ensures
        failures_of(tasks, outcomes).len() + count_ok(outcomes) == outcomes.len(),
    decreases outcomes.len(),
{
    if outcomes.len() > 0 {
        lemma_failures_len(tasks.drop_last(), outcomes.drop_last());
    }
}

/// The result of one whole run: the worker that carried it, the final
/// statistics, and every per-entry failure in dispatch order.
#[derive(Clone, Debug)]
pub struct RunReport {
    pub worker: Worker,
    pub stats: RunStats,
    pub failures: Vec<EntryFailure>,
}

/// The sequential strategy: one serialized-apartment session on the
/// calling thread, the file entries dispatched one at a time in
/// enumeration order, driven by the outcome each native call handed back.
///
/// A failed entry is recorded and never aborts the rest of the batch; the
/// counter rises exactly on the successful calls, so it never exceeds the
/// number of plain files and reaches it exactly when every call succeeds.
pub fn run_sequential(entries: &Vec<Entry>, outcomes: &Vec<NativeOutcome>) -> (r: RunReport)
    requires
        outcomes@.len() == file_paths(entries@).len(),
    ensures
        r.worker.wf(),
        r.worker.phase is Closed,
        r.worker.mode is SerializedApartment,
        r.worker.begun == 1 && r.worker.ended == 1,
        r.worker.extracts == outcomes@.len(),
        r.worker.indexed == r.stats.indexed,
        r.stats.indexed == count_ok(outcomes@),
        r.stats.indexed <= file_paths(entries@).len(),
        all_ok(outcomes@) ==> r.stats.indexed == file_paths(entries@).len(),
        r.failures@ == failures_of(file_paths(entries@), outcomes@),
        r.failures@.len() + r.stats.indexed == outcomes@.len(),
{
    let tasks = file_entries(entries);
    let n = tasks.len();
    let mut worker = Worker::new(SessionMode::SerializedApartment);
    worker.begin_succeeded();
    let mut stats = RunStats::new();
    let mut failures: Vec<EntryFailure> = Vec::new();
    for i in 0..n
        invariant
            n == tasks@.len(),
            tasks@ == file_paths(entries@),
            outcomes@.len() == tasks@.len(),
            worker.wf(),
            worker.phase is SessionActive,
            worker.mode is SerializedApartment,
            worker.begun == 1 && worker.ended == 0,
            worker.extracts == i,
            worker.indexed == stats.indexed,
            stats.indexed == count_ok(outcomes@.take(i as int)),
            stats.indexed <= i,
            failures@ == failures_of(tasks@.take(i as int), outcomes@.take(i as int)),
    {
        let o = &outcomes[i];
        worker.record_extract(o.ok);
        match classify_outcome(o) {
            Ok(()) => {
                stats.record_success();
            },
            Err(e) => {
                failures.push(EntryFailure { path: tasks[i].clone(), error: e });
            },
        }
        proof {
            assert(outcomes@.take(i + 1).drop_last() =~= outcomes@.take(i as int));
            assert(tasks@.take(i + 1).drop_last() =~= tasks@.take(i as int));
        }
    }
    worker.drain();
    worker.end_session();
    proof {
        assert(outcomes@.take(n as int) =~= outcomes@);
        assert(tasks@.take(n as int) =~= tasks@);
        lemma_count_ok_le_len(outcomes@);
        if all_ok(outcomes@) {
            lemma_all_ok_count(outcomes@);
        }
        lemma_failures_len(tasks@, outcomes@);
    }
    RunReport { worker, stats, failures }
}

} // verus!
