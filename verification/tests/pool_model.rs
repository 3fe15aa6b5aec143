use win_tcache_multi::bindings::NativeOutcome;
use win_tcache_multi::dispatch::Entry;
use win_tcache_multi::dispatch::run_sequential;
use win_tcache_multi::pool::round_robin_assignment;
use win_tcache_multi::pool::run_pool;
use win_tcache_multi::session::SessionPhase;

fn file(path: &str) -> Entry {
    Entry { path: String::from(path), is_file: true }
}

fn dir(path: &str) -> Entry {
    Entry { path: String::from(path), is_file: false }
}

fn ok() -> NativeOutcome {
    NativeOutcome { ok: true, code: 0, msg: String::new() }
}

fn fail(code: i32, msg: &str) -> NativeOutcome {
    NativeOutcome { ok: false, code, msg: String::from(msg) }
}

/// A fixed entry set with a stubbed outcome per file entry.
fn fixture() -> (Vec<Entry>, Vec<NativeOutcome>) {
    let entries = vec![
        file("a"),
        file("b"),
        dir("d1"),
        file("c"),
        file("e"),
        dir("d2"),
        file("f"),
    ];
    let outcomes = vec![ok(), fail(7, "x"), ok(), ok(), fail(8, "y")];
    (entries, outcomes)
}

#[test]
fn all_strategies_agree_on_the_count() {
    let (entries, outcomes) = fixture();

    // sequential
    let seq = run_sequential(&entries, &outcomes);

    // worker-pool-parallel: a fixed pool, round-robin partitioning
    let a2 = round_robin_assignment(outcomes.len(), 3);
    let pool = run_pool(&entries, &outcomes, 3, &a2);

    // task-parallel bridged onto a bounded pool: another worker count and
    // a different interleaving of the same entries
    let a3 = vec![1, 1, 0, 1, 0];
    let tasks = run_pool(&entries, &outcomes, 2, &a3);

    assert_eq!(seq.stats.indexed, 3);
    assert_eq!(pool.stats.indexed, 3);
    assert_eq!(tasks.stats.indexed, 3);
}

#[test]
fn strategies_agree_with_always_succeeding_stub() {
    let entries = vec![file("a"), file("b"), file("c"), dir("d")];
    let outcomes = vec![ok(), ok(), ok()];
    let seq = run_sequential(&entries, &outcomes);
    let assign = round_robin_assignment(3, 2);
    let pool = run_pool(&entries, &outcomes, 2, &assign);
    assert_eq!(seq.stats.indexed, 3);
    assert_eq!(pool.stats.indexed, 3);
}

#[test]
fn each_participating_worker_begins_and_ends_once() {
    let (entries, outcomes) = fixture();
    let assign = round_robin_assignment(outcomes.len(), 3);
    let r = run_pool(&entries, &outcomes, 3, &assign);
    assert_eq!(r.workers.len(), 3);
    for w in &r.workers {
        assert!(w.extracts > 0);
        assert_eq!(w.begun, 1);
        assert_eq!(w.ended, 1);
        assert_eq!(w.phase, SessionPhase::Closed);
    }
}

#[test]
fn idle_workers_never_initialize() {
    let entries = vec![file("a"), file("b")];
    let outcomes = vec![ok(), ok()];
    // five workers for two entries: workers 2, 3 and 4 never participate
    let assign = round_robin_assignment(2, 5);
    let r = run_pool(&entries, &outcomes, 5, &assign);
    for j in 0..2 {
        assert_eq!(r.workers[j].begun, 1);
        assert_eq!(r.workers[j].ended, 1);
        assert_eq!(r.workers[j].extracts, 1);
    }
    for j in 2..5 {
        assert_eq!(r.workers[j].begun, 0);
        assert_eq!(r.workers[j].ended, 0);
        assert_eq!(r.workers[j].extracts, 0);
        assert_eq!(r.workers[j].phase, SessionPhase::Idle);
    }
}

#[test]
fn failures_are_collected_across_workers() {
    let (entries, outcomes) = fixture();
    let assign = round_robin_assignment(outcomes.len(), 3);
    let r = run_pool(&entries, &outcomes, 3, &assign);
    assert_eq!(r.failures.len(), 2);
    assert_eq!(r.failures[0].path, "b");
    assert_eq!(r.failures[0].error.code, 7);
    assert_eq!(r.failures[1].path, "f");
    assert_eq!(r.failures[1].error.code, 8);
}

#[test]
fn randomized_interleaving_loses_no_increment() {
    // n workers, each carrying m successful extractions, interleaved by a
    // seeded linear congruential shuffle
    let n: usize = 4;
    let m: usize = 25;
    let total = n * m;

    let mut schedule: Vec<usize> = Vec::new();
    for j in 0..n {
        for _ in 0..m {
            schedule.push(j);
        }
    }
    let mut state: u64 = 0x2545F4914F6CDD1D;
    for i in (1..total).rev() {
        state = state.wrapping_mul(6364136223846793005).wrapping_add(1442695040888963407);
        let k = (state >> 33) as usize % (i + 1);
        schedule.swap(i, k);
    }

    let entries: Vec<Entry> = (0..total).map(|i| file(&format!("f{i}"))).collect();
    let outcomes: Vec<NativeOutcome> = (0..total).map(|_| ok()).collect();
    let r = run_pool(&entries, &outcomes, n, &schedule);

    assert_eq!(r.stats.indexed, total as u64);
    for w in &r.workers {
        assert_eq!(w.extracts, m as u64);
        assert_eq!(w.indexed, m as u64);
        assert_eq!(w.begun, 1);
        assert_eq!(w.ended, 1);
    }
}
