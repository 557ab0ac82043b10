use boast::progress::{progress_due, progress_line, render_progress_bar};

fn bar(done: usize, pending: usize, skipped: usize) -> String {
    format!("|[{}{}]{}|", "#".repeat(done), "-".repeat(pending), "=".repeat(skipped))
}

#[test]
fn half_done_bar() {
    assert_eq!(render_progress_bar(10, 10, 5), bar(20, 20, 0));
}

#[test]
fn empty_and_full_bars() {
    assert_eq!(render_progress_bar(10, 10, 0), bar(0, 40, 0));
    assert_eq!(render_progress_bar(10, 10, 10), bar(40, 0, 0));
}

#[test]
fn skipped_iterations_show_after_the_bar() {
    // 3 of 10 done (12 marks), half no longer needed (20 marks)
    assert_eq!(render_progress_bar(10, 5, 3), bar(12, 8, 20));
    assert_eq!(render_progress_bar(10, 5, 0), bar(0, 20, 20));
    // 3/80 of 40 is exactly one and a half, rounded up
    assert_eq!(render_progress_bar(80, 77, 0), bar(0, 38, 2));
}

#[test]
fn widths_are_rounded() {
    // 1/3 of 40 is 13.33
    assert_eq!(render_progress_bar(3, 3, 1), bar(13, 27, 0));
    // 1/80 of 40 is exactly one half, rounded up
    assert_eq!(render_progress_bar(80, 80, 1), bar(1, 39, 0));
}

#[test]
fn an_estimate_above_the_first_skips_nothing() {
    assert_eq!(render_progress_bar(10, 20, 15), bar(60, 0, 0));
}

#[test]
fn zero_total_with_nothing_done() {
    assert_eq!(render_progress_bar(0, 0, 0), bar(0, 40, 0));
    assert_eq!(render_progress_bar(0, 7, 0), bar(0, 40, 0));
}

#[test]
fn progress_is_reported_about_every_hundredth_iteration() {
    assert!(progress_due(0));
    assert!(progress_due(1));
    assert!(progress_due(99));
    // from 100 on, every second iteration
    assert!(progress_due(100));
    assert!(!progress_due(101));
    assert!(progress_due(102));
    // 1 + 550 / 100 = 6
    assert!(progress_due(552));
    assert!(!progress_due(550));
    // capped at every hundredth
    assert!(progress_due(1_000_000));
    assert!(!progress_due(1_000_050));
}

#[test]
fn progress_line_reports_counts_out_of_the_estimate() {
    let mut s = boast::State::start(10, false, 10, None);
    let est = |_f: usize, _p: usize| 10usize;
    for &r in &[true, false, true, true, true] {
        s.record_result(r, &est);
    }
    assert_eq!(
        progress_line(&s),
        format!("\r{} [ Completed 5 / 10 ] [ Failed 1 / 10 ]   ", bar(20, 20, 0))
    );
}
