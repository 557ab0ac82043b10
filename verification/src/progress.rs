//! The progress bar printed while a run is under way.
use vstd::prelude::*;

use crate::text::{decimal_text, u64_to_decimal};
use crate::state::State;

verus! {

/// The width of the progress bar, in characters between its brackets.
pub const BAR_WIDTH: usize = 40;

/// `numerator / denominator` rounded to the nearest integer, halves rounded up.
pub open spec fn round_div(numerator: nat, denominator: nat) -> nat
    recommends
        denominator > 0,
{
    ((2 * numerator + denominator) / (2 * denominator)) as nat
}

/// The number of '#' marks: the completed iterations as a share of `total`, scaled
/// to the bar's width and rounded.
pub open spec fn completed_width(total: nat, completed: nat) -> nat {
    if total == 0 {
        0
    } else {
        round_div((completed * BAR_WIDTH) as nat, total)
    }
}

/// The width of the part of the bar that can be skipped: the share of `total` that
/// is no longer estimated to be needed, scaled to the bar's width and rounded.
pub open spec fn cancelled_width(total: nat, current_total: nat) -> nat {
    if current_total >= total {
        0
    } else {
        round_div(((total - current_total) * BAR_WIDTH) as nat, total)
    }
}

/// `n` copies of `c`.
pub open spec fn repeat_char(c: char, n: nat) -> Seq<char> {
    Seq::new(n, |_i: int| c)
}

/// `a - b`, or 0 when `b` exceeds `a`.
pub open spec fn sub_or_zero(a: nat, b: nat) -> nat {
    if a >= b {
        (a - b) as nat
    } else {
        0
    }
}

/// The text of the progress bar: '#' for the completed iterations, '-' for those
/// still pending, then, past the closing bracket, '=' for those that can be
/// skipped.
pub open spec fn progress_bar_text(total: nat, current_total: nat, completed: nat) -> Seq<char> {
    let done = completed_width(total, completed);
    let cancelled = cancelled_width(total, current_total);
    let pending = sub_or_zero(BAR_WIDTH as nat, done + cancelled);
    seq!['|', '['] + repeat_char('#', done) + repeat_char('-', pending) + seq![']']
        + repeat_char('=', cancelled) + seq!['|']
}

/// Appends `n` copies of the one-character string `piece` to `text`.
fn append_repeated(text: &mut String, piece: &str, n: usize)
    requires
        piece@.len() == 1,
    ensures
        final(text)@ == old(text)@ + repeat_char(piece@[0], n as nat),
{
    let mut i: usize = 0;
    while i < n
        invariant
            i <= n,
            piece@.len() == 1,
            text@ == old(text)@ + repeat_char(piece@[0], i as nat),
        decreases n - i,
    {
        text.append(piece);
        assert(repeat_char(piece@[0], (i + 1) as nat) =~= repeat_char(piece@[0], i as nat) + piece@);
        i = i + 1;
    }
}

/// `numerator / denominator` rounded to the nearest integer, halves rounded up.
fn round_div_exec(numerator: u128, denominator: u128) -> (q: u128)
    requires
        denominator > 0,
        numerator < 0x1_0000_0000_0000_0000_0000_0000_0000,
        denominator < 0x1_0000_0000_0000_0000_0000_0000_0000,
    ensures
        q == round_div(numerator as nat, denominator as nat),
{
    (2 * numerator + denominator) / (2 * denominator)
}

/// Renders a three-part progress bar for a BOAST run.
///
/// The first part ('#') shows the proportion of the `total` (first estimated)
/// iterations that is completed, the second ('-') the proportion still pending, and
/// the third ('=', after the bracket) the proportion that can be skipped because the
/// current estimate `current_total` fell below `total`.
pub fn render_progress_bar(total: usize, current_total: usize, completed: usize) -> (bar: String)
    requires
        total > 0 || completed == 0,
        completed_width(total as nat, completed as nat) <= isize::MAX,
    ensures
        bar@ == progress_bar_text(total as nat, current_total as nat, completed as nat),
{
    let done: usize = if total == 0 {
        0
    } else {
        let w = round_div_exec((completed as u128) * 40, total as u128);
        w as usize
    };
    let cancelled: usize = if current_total >= total {
        0
    } else {
        let w = round_div_exec(((total - current_total) as u128) * 40, total as u128);
        assert(w <= 40) by {
            assert((2 * ((total - current_total) * 40) + total) / (2 * total as int) <= 40)
                by (nonlinear_arith)
                requires
                    0 <= current_total < total,
            ;
        }
        w as usize
    };
    let pending: usize = if done <= 40 && cancelled <= 40 - done {
        40 - done - cancelled
    } else {
        0
    };
    let mut bar = String::new();
    proof {
        reveal_strlit("|[");
        reveal_strlit("#");
        reveal_strlit("-");
        reveal_strlit("]");
        reveal_strlit("=");
        reveal_strlit("|");
    }
    bar.append("|[");
    append_repeated(&mut bar, "#", done);
    append_repeated(&mut bar, "-", pending);
    bar.append("]");
    append_repeated(&mut bar, "=", cancelled);
    bar.append("|");
    assert(bar@ =~= progress_bar_text(total as nat, current_total as nat, completed as nat));
    bar
}


/// How many iterations pass between two progress reports: about one in a hundred
/// of those done so far, at least one and at most a hundred.
pub open spec fn report_interval(iterations: nat) -> nat {
    let every = 1 + iterations / 100;
    if every <= 100 {
        every
    } else {
        100
    }
}

/// Whether progress is reported after `iterations` iterations: every
/// `report_interval(iterations)` iterations.
pub fn progress_due(iterations: usize) -> (due: bool)
    ensures
        due == ((iterations as nat) % report_interval(iterations as nat) == 0),
{
    let every = 1 + iterations / 100;
    let every = if every <= 100 { every } else { 100 };
    iterations % every == 0
}

/// The line that reports a run's progress: the bar, then the iterations completed
/// and failed, each out of the larger of the current estimate and the iterations.
pub open spec fn progress_line_text(m: crate::state::StateModel) -> Seq<char> {
    let k = if m.current_k >= m.iterations { m.current_k } else { m.iterations };
    "\r"@ + progress_bar_text(m.initial_k, m.current_k, m.iterations) + " [ Completed "@
        + decimal_text(m.iterations) + " / "@ + decimal_text(k) + " ] [ Failed "@
        + decimal_text((m.iterations - m.passes) as nat) + " / "@ + decimal_text(k) + " ]   "@
}

/// Renders the line that reports a run's progress.
pub fn progress_line(state: &State) -> (line: String)
    requires
        state@.wf(),
        state@.initial_k > 0 || state@.iterations == 0,
        completed_width(state@.initial_k, state@.iterations) <= isize::MAX,
    ensures
        line@ == progress_line_text(state@),
{
    let i = state.iterations();
    let current = state.current_k();
    let k = if current >= i { current } else { i };
    let failures = state.failures();
    let mut line = String::from_str("\r");
    let bar = render_progress_bar(state.initial_k(), current, i);
    line.append(bar.as_str());
    line.append(" [ Completed ");
    line.append(u64_to_decimal(i as u64).as_str());
    line.append(" / ");
    line.append(u64_to_decimal(k as u64).as_str());
    line.append(" ] [ Failed ");
    line.append(u64_to_decimal(failures as u64).as_str());
    line.append(" / ");
    line.append(u64_to_decimal(k as u64).as_str());
    line.append(" ]   ");
    line
}

} // verus!
