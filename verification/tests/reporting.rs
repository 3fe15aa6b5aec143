use win_tcache_multi::report::RunStats;
use win_tcache_multi::report::format_summary;
use win_tcache_multi::report::push_dec;
use win_tcache_multi::session::SessionMode;
use win_tcache_multi::session::SessionPhase;
use win_tcache_multi::session::Worker;

fn dec(n: u64) -> String {
    let mut v: Vec<char> = Vec::new();
    push_dec(n, &mut v);
    v.into_iter().collect()
}

#[test]
fn decimal_rendering_is_exact() {
    assert_eq!(dec(0), "0");
    assert_eq!(dec(7), "7");
    assert_eq!(dec(10), "10");
    assert_eq!(dec(207), "207");
    assert_eq!(dec(1000), "1000");
    assert_eq!(dec(u64::MAX), "18446744073709551615");
}

#[test]
fn summary_line_is_exact() {
    let line: String = format_summary(3, 125).into_iter().collect();
    assert_eq!(line, "Successfully indexed 3 items in 125ms");
    let zero: String = format_summary(0, 0).into_iter().collect();
    assert_eq!(zero, "Successfully indexed 0 items in 0ms");
}

#[test]
fn counter_rises_by_one_per_success() {
    let mut stats = RunStats::new();
    assert_eq!(stats.indexed, 0);
    for i in 1..=100u64 {
        stats.record_success();
        assert_eq!(stats.indexed, i);
    }
}

#[test]
fn worker_lifecycle_steps_in_order() {
    let mut w = Worker::new(SessionMode::SerializedApartment);
    assert_eq!(w.phase, SessionPhase::Idle);
    w.begin_succeeded();
    assert_eq!(w.phase, SessionPhase::SessionActive);
    w.record_extract(true);
    w.record_extract(false);
    w.record_extract(true);
    w.drain();
    assert_eq!(w.phase, SessionPhase::Draining);
    w.end_session();
    assert_eq!(w.phase, SessionPhase::Closed);
    assert_eq!((w.begun, w.ended), (1, 1));
    assert_eq!(w.extracts, 3);
    assert_eq!(w.indexed, 2);
}

#[test]
fn partial_initialization_degrades_without_aborting() {
    let r = win_tcache_multi::session::plan_participants(&vec![true, false, true, false]);
    assert_eq!(r.unwrap(), vec![0, 2]);
}

#[test]
fn total_initialization_failure_is_fatal() {
    let r = win_tcache_multi::session::plan_participants(&vec![false, false, false]);
    assert_eq!(
        r.unwrap_err(),
        win_tcache_multi::errors::ExtractError::SessionInitFailed
    );
}

#[test]
fn failed_initialization_contributes_nothing() {
    let mut w = Worker::new(SessionMode::ConcurrentApartment);
    w.begin_failed();
    assert_eq!(w.phase, SessionPhase::Closed);
    assert_eq!((w.begun, w.ended), (0, 0));
    assert_eq!(w.extracts, 0);
    assert_eq!(w.indexed, 0);
}
