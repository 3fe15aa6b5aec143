//! The parallel scheduling strategies, modelled over an explicit
//! interleaving.
//!
//! Both parallel strategies — a fixed pool of worker threads and
//! cooperative tasks bridged onto a blocking pool — partition the file
//! entries across workers and run them concurrently. Which worker handles
//! which entry, and in which order the outcomes land, is up to the
//! scheduler; the model takes that choice as an input, an assignment of a
//! worker to each dispatch step. Every contract below holds for every
//! assignment, which is exactly the order-independence the strategies
//! promise: the final count never depends on the interleaving.

use vstd::prelude::*;

use crate::bindings::NativeOutcome;
use crate::bindings::classify_outcome;
use crate::dispatch::Entry;
use crate::dispatch::EntryFailure;
use crate::dispatch::all_ok;
use crate::dispatch::count_ok;
use crate::dispatch::failures_of;
use crate::dispatch::file_entries;
use crate::dispatch::file_paths;
use crate::dispatch::lemma_all_ok_count;
use crate::dispatch::lemma_count_ok_le_len;
use crate::dispatch::lemma_failures_len;
use crate::report::RunStats;
use crate::session::SessionMode;
use crate::session::SessionPhase;
use crate::session::Worker;

verus! {

/// How often worker `j` occurs in an assignment: the number of dispatch
/// steps that worker carries.
pub open spec fn occ(s: Seq<usize>, j: int) -> nat
    decreases s.len(),
{
    if s.len() == 0 {
        0
    } else {
        occ(s.drop_last(), j) + (if s.last() as int == j {
            1nat
        } else {
            0nat
        })
    }
}

/// No worker carries more steps than the assignment has.
pub proof fn lemma_occ_le_len(s: Seq<usize>, j: int)
    ensures
        occ(s, j) <= s.len(),
    decreases s.len(),
{
    if s.len() > 0 {
        lemma_occ_le_len(s.drop_last(), j);
    }
}

/// The steps carried by the workers below `k`, summed.
pub open spec fn occ_total(s: Seq<usize>, k: int) -> nat
    decreases k,
{
    if k <= 0 {
        0
    } else {
        occ_total(s, k - 1) + occ(s, k - 1)
    }
}

/// An empty assignment gives every group of workers zero steps.
proof fn lemma_occ_total_empty(s: Seq<usize>, k: int)
    requires
        s.len() == 0,
    ensures
        occ_total(s, k) == 0,
    decreases k,
{
    if k > 0 {
        lemma_occ_total_empty(s, k - 1);
    }
}

/// Dropping the last step lowers the summed load by one exactly when that
/// step's worker is below `k`.
proof fn lemma_occ_total_step(s: Seq<usize>, k: int)
    requires
        s.len() > 0,
    ensures
        occ_total(s, k) == occ_total(s.drop_last(), k) + (if (s.last() as int) < k {
            1nat
        } else {
            0nat
        }),
    decreases k,
{
    if k > 0 {
        lemma_occ_total_step(s, k - 1);
    }
}

/// Each step of an assignment lands on exactly one worker: when every step
/// names a worker below `k`, the per-worker loads sum to the assignment's
/// length. No step is lost and none is double-counted.
pub proof fn lemma_occ_total_counts_all(s: Seq<usize>, k: int)
    requires
        forall|i: int| 0 <= i < s.len() ==> (s[i] as int) < k,
    ensures
        occ_total(s, k) == s.len(),
    decreases s.len(),
{
    if s.len() == 0 {
        lemma_occ_total_empty(s, k);
    } else {
        assert(forall|i: int|
            0 <= i < s.drop_last().len() ==> s.drop_last()[i] == s[i]);
        lemma_occ_total_counts_all(s.drop_last(), k);
        lemma_occ_total_step(s, k);
        assert((s.last() as int) < k) by {
            assert(s[s.len() - 1] == s.last());
        }
    }
}

/// When each of the workers below `k` carries exactly `m` steps, the
/// summed load is `k * m`.
proof fn lemma_occ_total_uniform(s: Seq<usize>, k: int, m: nat)
    requires
        0 <= k,
        forall|j: int| 0 <= j < k ==> occ(s, j) == m,
    ensures
        occ_total(s, k) == k * m,
    decreases k,
{
    if k > 0 {
        lemma_occ_total_uniform(s, k - 1, m);
        assert((k - 1) * m + m == k * m) by (nonlinear_arith);
    } else {
        assert(k * m == 0) by (nonlinear_arith)
            requires
                k == 0,
        ;
    }
}

/// No lost updates: an interleaving in which each of `k` workers
/// contributes exactly `m` increments has exactly `k * m` steps in all, so
/// a counter that rises once per step ends at `k * m`.
pub proof fn lemma_concurrent_increments_total(s: Seq<usize>, k: int, m: nat)
    requires
        0 <= k,
        forall|i: int| 0 <= i < s.len() ==> (s[i] as int) < k,
        forall|j: int| 0 <= j < k ==> occ(s, j) == m,
    ensures
        s.len() == k * m,
{
    lemma_occ_total_counts_all(s, k);
    lemma_occ_total_uniform(s, k, m);
}

/// The successes among the steps one worker carried: how much worker `j`
/// contributes to the shared counter.
pub open spec fn count_ok_for(outcomes: Seq<NativeOutcome>, assign: Seq<usize>, j: int) -> nat
    recommends
        outcomes.len() == assign.len(),
    decreases outcomes.len(),
{
    if outcomes.len() == 0 || assign.len() == 0 {
        0
    } else {
        count_ok_for(outcomes.drop_last(), assign.drop_last(), j) + (
        if assign.last() as int == j && outcomes.last().ok {
            1nat
        } else {
            0nat
        })
    }
}

/// The summed success counts of a group of workers: what the shared
/// counter must show once every worker has drained.
pub open spec fn sum_indexed(ws: Seq<Worker>) -> int
    decreases ws.len(),
{
    if ws.len() == 0 {
        0
    } else {
        sum_indexed(ws.drop_last()) + ws.last().indexed
    }
}

/// Replacing one worker changes the summed count by exactly that worker's
/// difference: the other contributions are untouched.
proof fn lemma_sum_indexed_update(ws: Seq<Worker>, j: int, w: Worker)
    requires
        0 <= j < ws.len(),
    ensures
        sum_indexed(ws.update(j, w)) == sum_indexed(ws) - ws[j].indexed + w.indexed,
    decreases ws.len(),
{
    if j == ws.len() - 1 {
        assert(ws.update(j, w).drop_last() =~= ws.drop_last());
    } else {
        assert(ws.update(j, w).drop_last() =~= ws.drop_last().update(j, w));
        assert(ws.update(j, w).last() == ws.last());
        lemma_sum_indexed_update(ws.drop_last(), j, w);
    }
}

/// The chunk-free round-robin assignment: dispatch step `i` lands on
/// worker `i mod n_workers`.
pub fn round_robin_assignment(n_tasks: usize, n_workers: usize) -> (a: Vec<usize>)
    requires
        n_workers >= 1,
    ensures
        a@.len() == n_tasks,
        forall|i: int| 0 <= i < n_tasks ==> a@[i] as int == i % (n_workers as int),
        forall|i: int| 0 <= i < n_tasks ==> a@[i] < n_workers,
{
    let mut a: Vec<usize> = Vec::new();
    for i in 0..n_tasks
        invariant
            n_workers >= 1,
            a@.len() == i,
            forall|t: int| 0 <= t < i ==> a@[t] as int == t % (n_workers as int),
            forall|t: int| 0 <= t < i ==> a@[t] < n_workers,
    {
        a.push(i % n_workers);
    }
    a
}

/// The result of one parallel run: every worker with its session and call
/// counts, the shared statistics, and the failures in dispatch order.
#[derive(Clone, Debug)]
pub struct PoolReport {
    pub workers: Vec<Worker>,
    pub stats: RunStats,
    pub failures: Vec<EntryFailure>,
}

/// A parallel run over a fixed pool, driven by an explicit interleaving.
///
/// `assign` names, for each dispatch step, the worker that carries it; the
/// outcomes arrive in dispatch order. Each participating worker opens its
/// own concurrent-apartment session on first use and closes it exactly
/// once after its work is drained; a worker that never participates never
/// initializes. The shared counter ends at the number of successful
/// outcomes whatever the interleaving — the same total the sequential
/// strategy reports — and per-entry failures are all kept.
pub fn run_pool(
    entries: &Vec<Entry>,
    outcomes: &Vec<NativeOutcome>,
    n_workers: usize,
    assign: &Vec<usize>,
) -> (r: PoolReport)
    requires
        n_workers >= 1,
        outcomes@.len() == file_paths(entries@).len(),
        assign@.len() == outcomes@.len(),
        forall|i: int| 0 <= i < assign@.len() ==> assign@[i] < n_workers,
    ensures
        r.workers@.len() == n_workers,
        r.stats.indexed == count_ok(outcomes@),
        r.stats.indexed <= file_paths(entries@).len(),
        all_ok(outcomes@) ==> r.stats.indexed == file_paths(entries@).len(),
        r.failures@ == failures_of(file_paths(entries@), outcomes@),
        r.failures@.len() + r.stats.indexed == outcomes@.len(),
        sum_indexed(r.workers@) == r.stats.indexed,
        forall|j: int|
            #![trigger r.workers@[j]]
            0 <= j < n_workers ==> {
                &&& r.workers@[j].wf()
                &&& r.workers@[j].mode is ConcurrentApartment
                &&& r.workers@[j].extracts == occ(assign@, j)
                &&& r.workers@[j].indexed == count_ok_for(outcomes@, assign@, j)
                &&& occ(assign@, j) > 0 ==> (r.workers@[j].phase is Closed && r.workers@[
                    j
                ].begun == 1 && r.workers@[j].ended == 1)
                &&& occ(assign@, j) == 0 ==> (r.workers@[j].phase is Idle && r.workers@[
                    j
                ].begun == 0 && r.workers@[j].ended == 0)
            },
{
    let tasks = file_entries(entries);
    let n = tasks.len();
    let mut workers: Vec<Worker> = Vec::new();
    for j in 0..n_workers
        invariant
            workers@.len() == j,
            forall|t: int|
                #![trigger workers@[t]]
                0 <= t < j ==> (workers@[t].wf() && workers@[t].phase is Idle
                    && workers@[t].mode is ConcurrentApartment && workers@[t].begun == 0
                    && workers@[t].ended == 0 && workers@[t].extracts == 0
                    && workers@[t].indexed == 0),
            sum_indexed(workers@) == 0,
    {
        let ghost prev = workers@;
        workers.push(Worker::new(SessionMode::ConcurrentApartment));
        proof {
            assert(workers@.drop_last() =~= prev);
        }
    }
    let mut stats = RunStats::new();
    let mut failures: Vec<EntryFailure> = Vec::new();
    for i in 0..n
        invariant
            n == tasks@.len(),
            tasks@ == file_paths(entries@),
            outcomes@.len() == n,
            assign@.len() == n,
            forall|t: int| 0 <= t < n ==> assign@[t] < n_workers,
            workers@.len() == n_workers,
            forall|j: int|
                #![trigger workers@[j]]
                0 <= j < n_workers ==> {
                    &&& workers@[j].wf()
                    &&& workers@[j].mode is ConcurrentApartment
                    &&& workers@[j].ended == 0
                    &&& workers@[j].extracts == occ(assign@.take(i as int), j)
                    &&& workers@[j].indexed == count_ok_for(
                        outcomes@.take(i as int),
                        assign@.take(i as int),
                        j,
                    )
                    &&& workers@[j].phase is Idle || workers@[j].phase is SessionActive
                    &&& workers@[j].phase is Idle <==> occ(assign@.take(i as int), j) == 0
                    &&& workers@[j].begun == (if occ(assign@.take(i as int), j) > 0 {
                        1int
                    } else {
                        0int
                    })
                },
            stats.indexed == count_ok(outcomes@.take(i as int)),
            stats.indexed <= i,
            sum_indexed(workers@) == stats.indexed,
            failures@ == failures_of(tasks@.take(i as int), outcomes@.take(i as int)),
    {
        let j = assign[i];
        let mut w = workers[j];
        if w.phase == SessionPhase::Idle {
            w.begin_succeeded();
        }
        proof {
            lemma_occ_le_len(assign@.take(i as int), j as int);
        }
        let o = &outcomes[i];
        w.record_extract(o.ok);
        let ghost prev = workers@;
        workers.set(j, w);
        proof {
            lemma_sum_indexed_update(prev, j as int, w);
        }
        match classify_outcome(o) {
            Ok(()) => {
                stats.record_success();
            },
            Err(e) => {
                failures.push(EntryFailure { path: tasks[i].clone(), error: e });
            },
        }
        proof {
            assert(assign@.take(i + 1).drop_last() =~= assign@.take(i as int));
            assert(assign@.take(i + 1).last() == assign@[i as int]);
            assert(outcomes@.take(i + 1).drop_last() =~= outcomes@.take(i as int));
            assert(tasks@.take(i + 1).drop_last() =~= tasks@.take(i as int));
            assert forall|t: int| 0 <= t < n_workers implies occ(assign@.take(i + 1), t) == occ(
                assign@.take(i as int),
                t,
            ) + (if assign@[i as int] as int == t {
                1nat
            } else {
                0nat
            }) by {
                assert(occ(assign@.take(i + 1), t) == occ(assign@.take(i + 1).drop_last(), t) + (
                if assign@.take(i + 1).last() as int == t {
                    1nat
                } else {
                    0nat
                }));
            }
            assert forall|t: int| 0 <= t < n_workers implies count_ok_for(
                outcomes@.take(i + 1),
                assign@.take(i + 1),
                t,
            ) == count_ok_for(outcomes@.take(i as int), assign@.take(i as int), t) + (
            if assign@[i as int] as int == t && outcomes@[i as int].ok {
                1nat
            } else {
                0nat
            }) by {
                assert(count_ok_for(outcomes@.take(i + 1), assign@.take(i + 1), t)
                    == count_ok_for(
                    outcomes@.take(i + 1).drop_last(),
                    assign@.take(i + 1).drop_last(),
                    t,
                ) + (if assign@.take(i + 1).last() as int == t && outcomes@.take(
                    i + 1,
                ).last().ok {
                    1nat
                } else {
                    0nat
                }));
            }
        }
    }
    proof {
        assert(assign@.take(n as int) =~= assign@);
        assert(outcomes@.take(n as int) =~= outcomes@);
        assert(tasks@.take(n as int) =~= tasks@);
        lemma_count_ok_le_len(outcomes@);
        if all_ok(outcomes@) {
            lemma_all_ok_count(outcomes@);
        }
        lemma_failures_len(tasks@, outcomes@);
    }
    for j in 0..n_workers
        invariant
            workers@.len() == n_workers,
            stats.indexed == count_ok(outcomes@),
            stats.indexed <= file_paths(entries@).len(),
            all_ok(outcomes@) ==> stats.indexed == file_paths(entries@).len(),
            failures@ == failures_of(file_paths(entries@), outcomes@),
            failures@.len() + stats.indexed == outcomes@.len(),
            sum_indexed(workers@) == stats.indexed,
            forall|t: int|
                #![trigger workers@[t]]
                0 <= t < n_workers ==> {
                    &&& workers@[t].wf()
                    &&& workers@[t].mode is ConcurrentApartment
                    &&& workers@[t].extracts == occ(assign@, t)
                    &&& workers@[t].indexed == count_ok_for(outcomes@, assign@, t)
                },
            forall|t: int|
                #![trigger workers@[t]]
                j <= t < n_workers ==> {
                    &&& workers@[t].phase is Idle || workers@[t].phase is SessionActive
                    &&& workers@[t].phase is Idle <==> occ(assign@, t) == 0
                    &&& workers@[t].ended == 0
                    &&& workers@[t].begun == (if occ(assign@, t) > 0 {
                        1int
                    } else {
                        0int
                    })
                },
            forall|t: int|
                #![trigger workers@[t]]
                0 <= t < j ==> {
                    &&& occ(assign@, t) > 0 ==> (workers@[t].phase is Closed && workers@[
                        t
                    ].begun == 1 && workers@[t].ended == 1)
                    &&& occ(assign@, t) == 0 ==> (workers@[t].phase is Idle && workers@[
                        t
                    ].begun == 0 && workers@[t].ended == 0)
                },
    {
        let mut w = workers[j];
        if w.phase == SessionPhase::SessionActive {
            w.drain();
            w.end_session();
            let ghost prev = workers@;
            workers.set(j, w);
            proof {
                lemma_sum_indexed_update(prev, j as int, w);
            }
        }
    }
    PoolReport { workers, stats, failures }
}

} // verus!
