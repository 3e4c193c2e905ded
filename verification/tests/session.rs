//! Session-model tests: the index counter, the generation limit, and the
//! whole-session run under arbitrary worker interleavings.
use jen::scheduler::split;
use jen::session::GenerationLimit;
use jen::session::IndexCounter;
use jen::session::SessionOutcome;
use jen::session::first_error;
use jen::session::index_sequence;
use jen::session::run_session;
use jen::session::run_split_session;

fn random_schedule(workers: usize, len: usize) -> Vec<usize> {
    let mut s = Vec::with_capacity(len);
    for _ in 0..len {
        s.push(rand::random_range(0..workers));
    }
    s
}

#[test]
fn index_counter_counts_from_zero() {
    let mut c = IndexCounter::new();
    assert_eq!(c.next(), 0);
    assert_eq!(c.next(), 1);
    assert_eq!(c.next(), 2);
}

#[test]
fn index_sequence_is_initial_segment() {
    let mut c = IndexCounter::new();
    let vals = index_sequence(&mut c, 100);
    let expected: Vec<u64> = (0..100u64).collect();
    assert_eq!(vals, expected);
}

#[test]
fn limit_grants_exactly_cap() {
    let mut l = GenerationLimit::new(Some(3));
    assert!(l.try_acquire());
    assert!(l.try_acquire());
    assert!(l.try_acquire());
    assert!(!l.try_acquire());
    assert!(!l.try_acquire());
}

#[test]
fn unbounded_limit_always_grants() {
    let mut l = GenerationLimit::new(None);
    for _ in 0..1000 {
        assert!(l.try_acquire());
    }
}

#[test]
fn session_without_limit_emits_every_share() {
    for workers in 1..12u64 {
        let shares = split(30, workers);
        let schedule = random_schedule(workers as usize, 200);
        let out: SessionOutcome = run_session(&shares, None, &schedule);
        assert_eq!(out.emitted, shares);
        assert_eq!(out.issued, (0..30u64).collect::<Vec<u64>>());
    }
}

#[test]
fn session_under_limit_emits_exactly_the_cap() {
    // a limit of 7 over 100 requested documents and 10 workers: exactly 7
    // documents come out, under every interleaving tried
    for trial in 0..200usize {
        let shares = split(100, 10);
        let schedule = random_schedule(10, 50 + trial);
        let out = run_session(&shares, Some(7), &schedule);
        let total: u64 = out.emitted.iter().sum();
        assert_eq!(total, 7);
        assert_eq!(out.issued, (0..7u64).collect::<Vec<u64>>());
    }
}

#[test]
fn session_limit_above_total_changes_nothing() {
    let shares = split(25, 4);
    let schedule = random_schedule(4, 300);
    let out = run_session(&shares, Some(1000), &schedule);
    assert_eq!(out.emitted, shares);
    let total: u64 = out.emitted.iter().sum();
    assert_eq!(total, 25);
}

#[test]
fn session_index_values_cover_the_range_exactly() {
    // whatever the worker count and the interleaving, the issued index
    // values are exactly 0 through N-1, none repeated, none missing
    for workers in 1..32u64 {
        let n = 500u64;
        let shares = split(n, workers);
        let schedule = random_schedule(workers as usize, 700);
        let out = run_session(&shares, None, &schedule);
        assert_eq!(out.issued.len() as u64, n);
        let mut seen = vec![false; n as usize];
        for v in &out.issued {
            assert!(*v < n);
            assert!(!seen[*v as usize], "index value repeated");
            seen[*v as usize] = true;
        }
        assert!(seen.iter().all(|b| *b), "index value skipped");
    }
}

#[test]
fn session_zero_documents() {
    let shares = split(0, 5);
    let out = run_session(&shares, Some(7), &random_schedule(5, 40));
    let total: u64 = out.emitted.iter().sum();
    assert_eq!(total, 0);
    assert!(out.issued.is_empty());
}

#[test]
fn split_session_totals_are_forced() {
    for workers in 1..16u64 {
        for limit in [None, Some(0u64), Some(7), Some(100), Some(5000)] {
            let out =
                run_split_session(1000, workers, limit, &random_schedule(workers as usize, 300));
            let total: u64 = out.emitted.iter().sum();
            assert_eq!(total, limit.map_or(1000, |l| l.min(1000)));
            assert_eq!(out.issued, (0..total).collect::<Vec<u64>>());
        }
    }
}

#[test]
fn first_error_follows_spawn_order() {
    assert_eq!(first_error(&Vec::new()), None);
    assert_eq!(first_error(&vec![None, None, None]), None);
    assert_eq!(
        first_error(&vec![None, Some("late".to_owned()), Some("later".to_owned())]),
        Some("late".to_owned())
    );
    assert_eq!(
        first_error(&vec![Some("first".to_owned()), None, Some("second".to_owned())]),
        Some("first".to_owned())
    );
}

#[test]
fn session_combine_aggregate_has_requested_length() {
    // the aggregate of all per-worker emissions has exactly the requested
    // length, whatever the worker count
    for workers in [1u64, 2, 3, 8, 16, 32] {
        let shares = split(64, workers);
        let out = run_session(&shares, None, &random_schedule(workers as usize, 100));
        let total: u64 = out.emitted.iter().sum();
        assert_eq!(total, 64);
    }
}
