use boast::State;
use boast::state::limit_reached;

fn k_of(failures: usize, passes: usize) -> usize {
    // a stand-in estimate: grows with passes, shrinks with failures
    10 + passes / 2 - failures.min(5)
}

#[test]
fn fresh_state_has_no_counts_and_no_evidence() {
    let s = State::start(100, false, 8, None);
    assert_eq!(s.n(), 100);
    assert!(!s.stop_on_failure());
    assert_eq!(s.initial_k(), 8);
    assert_eq!(s.current_k(), 8);
    assert_eq!(s.iterations(), 0);
    assert_eq!(s.passes(), 0);
    assert_eq!(s.failures(), 0);
    assert_eq!(s.failures_reported(), 0);
    assert_eq!(s.passes_reported(), 0);
    assert!(!s.should_stop());
    assert!(!s.has_sufficient_evidence());
}

#[test]
fn passes_are_held_back_until_the_first_failure() {
    let mut s = State::start(10, false, 100, None);
    s.record_result(true, &k_of);
    s.record_result(true, &k_of);
    s.record_result(true, &k_of);
    assert_eq!(s.iterations(), 3);
    assert_eq!(s.passes(), 3);
    assert_eq!(s.failures_reported(), 0);
    assert_eq!(s.passes_reported(), 0);
    // no evidence was added, so the estimate stays as it was
    assert_eq!(s.current_k(), 100);

    s.record_result(false, &k_of);
    assert_eq!(s.iterations(), 4);
    assert_eq!(s.passes(), 3);
    assert_eq!(s.failures(), 1);
    assert_eq!(s.failures_reported(), 1);
    assert_eq!(s.passes_reported(), 3);
    assert_eq!(s.current_k(), k_of(1, 3));
}

#[test]
fn after_a_failure_every_result_is_reported() {
    let mut s = State::start(10, false, 100, None);
    // results: pass, fail, pass, pass, fail
    for &r in &[true, false, true, true, false] {
        s.record_result(r, &k_of);
    }
    assert_eq!(s.iterations(), 5);
    assert_eq!(s.passes(), 3);
    // one for each failure
    assert_eq!(s.failures_reported(), 2);
    // every pass of the run
    assert_eq!(s.passes_reported(), 3);
    assert_eq!(s.current_k(), k_of(2, 3));
}

#[test]
fn stop_on_failure_stops_at_the_first_failure() {
    let mut s = State::start(10, true, 100, None);
    s.record_result(true, &|_f: usize, _p: usize| 100);
    assert!(!s.should_stop());
    s.record_result(false, &|_f: usize, _p: usize| 100);
    assert!(s.should_stop());
}

#[test]
fn without_stop_on_failure_a_failure_does_not_stop() {
    let mut s = State::start(10, false, 100, None);
    s.record_result(false, &|_f: usize, _p: usize| 100);
    assert!(!s.should_stop());
}

#[test]
fn stops_once_the_estimate_is_reached() {
    let mut s = State::start(10, false, 2, None);
    let est = |_f: usize, _p: usize| 2usize;
    s.record_result(true, &est);
    assert!(!s.should_stop());
    s.record_result(true, &est);
    assert!(s.should_stop());
}

#[test]
fn sufficient_evidence_uses_the_smaller_estimate() {
    let mut s = State::start(10, false, 5, None);
    let est = |_f: usize, _p: usize| 2usize;
    s.record_result(false, &est);
    assert_eq!(s.current_k(), 2);
    assert!(!s.has_sufficient_evidence());
    s.record_result(true, &est);
    assert!(s.has_sufficient_evidence());
    assert!(s.has_passed(true));
    assert!(!s.has_passed(false));
}

#[test]
fn reset_clears_the_run_and_keeps_the_evidence() {
    let mut s = State::start(10, false, 100, None);
    for &r in &[true, false, true] {
        s.record_result(r, &k_of);
    }
    let (a, b) = (s.failures_reported(), s.passes_reported());
    s.reset(&k_of);
    assert_eq!(s.iterations(), 0);
    assert_eq!(s.passes(), 0);
    assert_eq!(s.failures_reported(), a);
    assert_eq!(s.passes_reported(), b);
    assert_eq!(s.current_k(), k_of(a, b));
    assert_eq!(s.initial_k(), 100);
    // a new run holds passes back again
    s.record_result(true, &k_of);
    assert_eq!(s.passes_reported(), b);
}

#[test]
fn a_run_without_a_time_limit_never_times_out() {
    let s = State::start(10, false, 5, None);
    assert_eq!(s.timeout(), None);
    assert!(!s.has_timed_out());
}

#[test]
fn a_zero_time_limit_is_reached_at_once() {
    let s = State::start(10, false, 5, Some(std::time::Duration::ZERO));
    assert!(s.has_timed_out());
    let s = State::start(10, false, 5, Some(std::time::Duration::from_secs(3600)));
    assert!(!s.has_timed_out());
}

#[test]
fn evidence_of_every_short_run_counts_each_failure_and_each_reported_pass() {
    // every sequence of up to 8 results
    for len in 0..=8usize {
        for bits in 0..(1u32 << len) {
            let results: Vec<bool> = (0..len).map(|i| bits & (1 << i) == 0).collect();
            let mut s = State::start(1, false, 1000, None);
            s.record_result(false, &|_f: usize, _p: usize| 1000);
            s.reset(&|_f: usize, _p: usize| 1000);
            let (a0, b0) = (s.failures_reported(), s.passes_reported());
            for &r in &results {
                s.record_result(r, &|_f: usize, _p: usize| 1000);
            }
            let passes = results.iter().filter(|&&r| r).count();
            assert_eq!(s.iterations(), len);
            assert_eq!(s.passes(), passes);
            assert_eq!(s.failures_reported(), a0 + (len - passes));
            if passes == len {
                assert_eq!(s.passes_reported(), b0);
            } else {
                assert_eq!(s.passes_reported(), b0 + passes);
            }
        }
    }
}

#[test]
fn a_limit_is_reached_once_the_elapsed_time_equals_it() {
    let limit = std::time::Duration::from_millis(5);
    assert!(limit_reached(&std::time::Duration::from_millis(5), &limit));
    assert!(limit_reached(&std::time::Duration::from_secs(1), &limit));
    assert!(!limit_reached(&std::time::Duration::from_nanos(4_999_999), &limit));
    assert!(limit_reached(&std::time::Duration::ZERO, &std::time::Duration::ZERO));
}

#[test]
fn a_zero_time_limit_ends_the_test_whatever_the_counts() {
    let s = State::start(10, false, 100, Some(std::time::Duration::ZERO));
    assert!(!s.stops_by_counts());
    assert!(s.should_stop());
    let s = State::start(10, false, 100, Some(std::time::Duration::from_secs(3600)));
    assert!(!s.should_stop());
}

#[test]
fn a_pass_after_a_failure_adds_only_to_the_pass_parameter() {
    let mut s = State::start(10, false, 100, None);
    s.record_result(false, &k_of);
    assert_eq!((s.failures_reported(), s.passes_reported()), (1, 0));
    s.record_result(true, &k_of);
    assert_eq!((s.failures_reported(), s.passes_reported()), (1, 1));
    assert_eq!(s.current_k(), k_of(1, 1));
}
