use boast::runner::{error_note, seed_note, Trials, Verdict};
use boast::{DataSource, Error};

#[test]
fn trials_keep_the_seeds_of_failed_trials() {
    let src = DataSource::iterable(1, vec![vec![1u8], vec![2], vec![3]].into_iter());
    let mut t = Trials::new(src, false, 3, None);
    let est = |_f: usize, _p: usize| 3usize;
    let mut seeds = Vec::new();
    for expected in 1u8..=3 {
        let (seed, data) = t.next_trial().unwrap();
        assert_eq!(data, vec![expected]);
        let passed = expected != 2;
        t.record_trial(seed, passed, &est);
        seeds.push(seed);
    }
    assert_eq!(t.failing_seeds(), &vec![seeds[1]]);
    assert_eq!(t.state().iterations(), 3);
    assert_eq!(t.state().passes(), 2);
    assert_eq!(t.state().failures(), 1);
    assert_eq!(t.next_trial(), Err(Error::DataSourceExhausted));
}

#[test]
fn trials_over_a_transformed_source_always_get_data() {
    let src = DataSource::transformed(vec![0u64; 3], |d: &mut [u64], seed: u64| {
        d[0] = seed;
    });
    let mut t = Trials::new(src, false, 1, None);
    let (seed, data) = t.next_trial().unwrap();
    assert_eq!(data, vec![seed, 0, 0]);
}

#[test]
fn verdict_continues_until_the_stopping_rule_holds() {
    let src = DataSource::iterable(1, vec![vec![0u8]; 5].into_iter());
    let mut t = Trials::new(src, false, 2, None);
    let est = |_f: usize, _p: usize| 2usize;
    assert_eq!(t.verdict(false, false), Verdict::Continue);
    t.record_trial(1, true, &est);
    assert_eq!(t.verdict(false, true), Verdict::Continue);
    t.record_trial(2, true, &est);
    assert_eq!(t.verdict(false, true), Verdict::Passed);
    assert_eq!(t.verdict(false, false), Verdict::Failed);
    assert_eq!(t.verdict(true, true), Verdict::TimedOut);
}

#[test]
fn verdict_times_out_before_the_required_iterations() {
    let src = DataSource::iterable(1, vec![vec![0u8]; 5].into_iter());
    let t = Trials::new(src, false, 50, None);
    assert_eq!(t.verdict(true, true), Verdict::TimedOut);
}

#[test]
fn verdict_fails_at_once_when_every_trial_must_pass() {
    let src = DataSource::iterable(1, vec![vec![0u8]; 5].into_iter());
    let mut t = Trials::new(src, true, 50, None);
    let est = |_f: usize, _p: usize| 50usize;
    t.record_trial(9, false, &est);
    assert_eq!(t.verdict(false, false), Verdict::Failed);
    assert_eq!(t.failing_seeds(), &vec![9]);
}

#[test]
fn one_kept_seed_per_failed_trial() {
    let src = DataSource::iterable(1, vec![vec![0u8]; 6].into_iter());
    let mut t = Trials::new(src, false, 100, None);
    let est = |_f: usize, _p: usize| 100usize;
    let results = [false, true, false, false, true, true];
    for (i, &r) in results.iter().enumerate() {
        t.record_trial(100 + i as u64, r, &est);
    }
    assert_eq!(t.failing_seeds(), &vec![100, 102, 103]);
    assert_eq!(t.failing_seeds().len(), t.state().failures());
    // the evidence: every pass, and every failure
    assert_eq!(t.state().passes_reported(), 3);
    assert_eq!(t.state().failures_reported(), 3);
}

#[test]
fn notes_printed_at_the_end_of_a_run() {
    assert_eq!(
        error_note(&Error::TimedOut),
        "Test ended due to timeout before sufficient evidence was gathered."
    );
    assert_eq!(
        error_note(&Error::DataSourceExhausted),
        "Test ended because the data source was exhausted before sufficient evidence was gathered."
    );
    assert_eq!(error_note(&Error::Internal("x".to_string())), "Internal error: x");
    for seed in [0u64, 9, 10, 255, 0xDEADBEEF, u64::MAX] {
        assert_eq!(seed_note(seed), format!("Last failing seed: 0x{seed:0X}"));
    }
}

#[test]
fn a_run_that_must_always_pass_ends_at_its_first_failure() {
    let src = DataSource::from_datasets(1, vec![vec![0u8], vec![1u8], vec![0u8]]);
    let mut t = Trials::new(src, true, 50, None);
    let est = |_f: usize, _p: usize| 50usize;
    while t.verdict(false, t.state().passes() == t.state().iterations()) == Verdict::Continue {
        let (seed, data) = t.next_trial().unwrap();
        t.record_trial(seed, data[0] == 0, &est);
    }
    assert_eq!(t.verdict(false, false), Verdict::Failed);
    assert_eq!(t.state().iterations(), 2);
    assert_eq!(t.state().failures(), 1);
    assert_eq!(t.failing_seeds().len(), 1);
}

#[test]
fn a_source_of_one_dataset_is_exhausted_at_the_second_trial() {
    let src = DataSource::from_datasets(1, vec![vec![0u8]]);
    let mut t = Trials::new(src, false, 5, None);
    let (seed, data) = t.next_trial().unwrap();
    assert_eq!(data, vec![0u8]);
    t.record_trial(seed, true, &|_f: usize, _p: usize| 5usize);
    assert_eq!(t.verdict(false, true), Verdict::Continue);
    assert_eq!(t.next_trial(), Err(Error::DataSourceExhausted));
}
