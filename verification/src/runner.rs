//! The trials of a BOAST run: the seeds, the datasets handed to the test, the
//! record of which trials failed, and the decision when to end.
use vstd::prelude::*;

use rand::rngs::ThreadRng;
use rand::Rng;

use std::time::Duration;

use crate::data_src::{DataSource, clones};
use crate::error::Error;
use crate::text::{hex_text, u64_to_hex};
use crate::state::{State, StateModel, count_passes, estimate_callable};

verus! {

/// The thread-local random number generator of the `rand` crate.
#[verifier::external_type_specification]
#[verifier::external_body]
pub struct ExThreadRng(ThreadRng);

/// Calls `rand::rng`, which hands out a handle to the thread-local generator.
/// Nothing is claimed of the generator.
#[verifier::external_body]
fn thread_rng() -> ThreadRng {
    rand::rng()
}

/// Calls `Rng::random::<u64>` on the thread-local generator: a random seed. Nothing
/// is claimed of its value; `rand` panics only if the operating system's entropy
/// source fails.
#[verifier::external_body]
fn random_seed(rng: &mut ThreadRng) -> u64 {
    rng.random()
}

/// How a run stands after its latest trial.
#[derive(Debug, Clone, Copy, PartialEq, Eq)]
pub enum Verdict {
    /// More trials are needed.
    Continue,
    /// The time limit was reached; the run ends without a result.
    TimedOut,
    /// The run ended with enough evidence and the required pass ratio.
    Passed,
    /// The run ended without meeting the confidence or the pass ratio.
    Failed,
}

/// How a run stands, given its counts, whether its time limit was reached and
/// whether its observed pass ratio meets the required one.
///
/// A run ends when its time limit is reached, even before the required number
/// of iterations; otherwise it ends when the stopping rule holds, and has passed if
/// it has sufficient evidence and meets the pass ratio.
pub open spec fn spec_verdict(m: StateModel, timed_out: bool, ratio_met: bool) -> Verdict {
    if timed_out {
        Verdict::TimedOut
    } else if !m.stops_by_counts() {
        Verdict::Continue
    } else if ratio_met && m.has_sufficient_evidence() {
        Verdict::Passed
    } else {
        Verdict::Failed
    }
}

/// The seeds of the failed trials of `history`, in order.
pub open spec fn failed_seeds(history: Seq<(u64, bool)>) -> Seq<u64>
    decreases history.len(),
{
    if history.len() == 0 {
        Seq::empty()
    } else {
        let prev = failed_seeds(history.drop_last());
        if history.last().1 { prev } else { prev.push(history.last().0) }
    }
}

/// The results of the trials of `history`, in order.
pub open spec fn outcomes(history: Seq<(u64, bool)>) -> Seq<bool> {
    history.map_values(|t: (u64, bool)| t.1)
}

/// The kept seeds are one per failed trial: as many as the trials that did not pass.
pub proof fn lemma_failed_seeds_count(history: Seq<(u64, bool)>)
    ensures
        failed_seeds(history).len() == history.len() - count_passes(outcomes(history)),
    decreases history.len(),
{
    if history.len() > 0 {
        let prev = history.drop_last();
        lemma_failed_seeds_count(prev);
        assert(outcomes(history).drop_last() =~= outcomes(prev));
        assert(outcomes(history).last() == history.last().1);
    }
}

/// Every kept seed is the seed of a failed trial, and every failed trial's seed is
/// kept, in the order of the trials.
pub proof fn lemma_failed_seeds_are_failures(history: Seq<(u64, bool)>, j: int)
    requires
        0 <= j < failed_seeds(history).len(),
    ensures
        exists|i: int| 0 <= i < history.len() && !history[i].1 && history[i].0 == failed_seeds(history)[j],
    decreases history.len(),
{
    let prev = history.drop_last();
    if j < failed_seeds(prev).len() {
        lemma_failed_seeds_are_failures(prev, j);
        let i = choose|i: int| 0 <= i < prev.len() && !prev[i].1 && prev[i].0 == failed_seeds(prev)[j];
        assert(history[i] == prev[i]);
    } else {
        assert(!history.last().1);
        assert(history[history.len() - 1] == history.last());
    }
}

/// The verdict of a run: a reached time limit always ends it without a result; a
/// run that passes has sufficient evidence and meets the pass ratio; a run that
/// continues has not reached its estimate, and has not failed if every trial must
/// pass.
pub proof fn lemma_verdict_cases(m: StateModel, timed_out: bool, ratio_met: bool)
    ensures
        timed_out <==> spec_verdict(m, timed_out, ratio_met) == Verdict::TimedOut,
        spec_verdict(m, timed_out, ratio_met) == Verdict::Passed ==> ratio_met
            && m.has_sufficient_evidence(),
        spec_verdict(m, timed_out, ratio_met) == Verdict::Continue ==> m.iterations < m.current_k
            && !(m.stop_on_failure && m.passes < m.iterations),
        !ratio_met && !timed_out && m.stops_by_counts() ==> spec_verdict(m, timed_out, ratio_met)
            == Verdict::Failed,
{
}

/// A run that has not timed out and whose counts end it passes exactly when it has
/// performed at least the first or the current estimate of iterations and meets the
/// pass ratio, whatever failures the pass ratio allows; in particular a run that has
/// reached its current estimate and meets the pass ratio passes.
pub proof fn lemma_pass_by_evidence_and_ratio(m: StateModel, timed_out: bool, ratio_met: bool)
    ensures
        !timed_out && m.stops_by_counts() ==> (spec_verdict(m, timed_out, ratio_met)
            == Verdict::Passed <==> ratio_met && (m.iterations >= m.initial_k || m.iterations
            >= m.current_k)),
        !timed_out && ratio_met && m.iterations >= m.current_k ==> spec_verdict(
            m,
            timed_out,
            ratio_met,
        ) == Verdict::Passed,
{
}

/// The required pass ratio has no effect on how many iterations are performed, only
/// on the outcome: whether a run goes on is the same whether or not its pass ratio
/// is met.
pub proof fn lemma_pass_ratio_only_decides(m: StateModel, timed_out: bool, r1: bool, r2: bool)
    ensures
        (spec_verdict(m, timed_out, r1) == Verdict::Continue) == (spec_verdict(m, timed_out, r2)
            == Verdict::Continue),
        spec_verdict(m, timed_out, r1) == Verdict::TimedOut <==> spec_verdict(m, timed_out, r2)
            == Verdict::TimedOut,
{
}

/// The trials of a BOAST run over a data source.
#[verifier::reject_recursive_types(T)]
pub struct Trials<T: Clone> {
    state: State,
    data: DataSource<T>,
    rng: ThreadRng,
    failing_seeds: Vec<u64>,
    history: Ghost<Seq<(u64, bool)>>,
    start: Ghost<StateModel>,
}

impl<T: Clone> Trials<T> {
    /// The trials recorded so far: each seed with whether its trial passed.
    pub closed spec fn history(&self) -> Seq<(u64, bool)> {
        self.history@
    }

    /// The counts of the run.
    pub closed spec fn state_model(&self) -> StateModel {
        self.state@
    }

    /// The data source.
    pub closed spec fn source(&self) -> DataSource<T> {
        self.data
    }

    /// The seeds of the failed trials that were kept.
    pub closed spec fn spec_failing_seeds(&self) -> Seq<u64> {
        self.failing_seeds@
    }

    /// The counts at the start of the run.
    pub closed spec fn start_model(&self) -> StateModel {
        self.start@
    }

    /// The trials are consistent: the counts are those of the recorded results from
    /// the start, and the kept seeds are those of the failed trials.
    pub closed spec fn wf(&self) -> bool {
        &&& self.state@.wf()
        &&& self.start@.wf()
        &&& self.start@.iterations == 0
        &&& self.state@.iterations == self.history@.len()
        &&& self.failing_seeds@ == failed_seeds(self.history@)
        &&& forall|seed: u64| #[trigger] self.data.accepts(seed)
        &&& ({
            let t = self.start@.tally_all(outcomes(self.history@));
            &&& self.state@ == (StateModel { current_k: self.state@.current_k, ..t })
        })
    }

    /// The counts of the run are those of its recorded results, one after the other,
    /// from its start, and the kept seeds are those of its failed trials.
    pub proof fn lemma_counts_follow_history(&self)
        requires
            self.wf(),
        ensures
            self.state_model() == (StateModel {
                current_k: self.state_model().current_k,
                ..self.start_model().tally_all(outcomes(self.history()))
            }),
            self.start_model().wf(),
            self.start_model().iterations == 0,
            self.spec_failing_seeds() == failed_seeds(self.history()),
    {
    }

    /// Sets up the trials of a run over `data`, with `initial_k` as the estimate of
    /// the iterations required, ending at the first failure if `stop_on_failure`, and
    /// limited in time by `timeout` if any.
    pub fn new(data: DataSource<T>, stop_on_failure: bool, initial_k: usize, timeout: Option<Duration>) -> (t: Self)
        requires
            forall|seed: u64| #[trigger] data.accepts(seed),
        ensures
            t.wf(),
            t.history() == Seq::<(u64, bool)>::empty(),
            t.source() == data,
            t.state_model() == t.start_model(),
            t.start_model().n == data.spec_len(),
            t.start_model().stop_on_failure == stop_on_failure,
            t.start_model().timeout == timeout,
            t.start_model().initial_k == initial_k,
            t.start_model().current_k == initial_k,
            t.start_model().failures_reported == 0,
            t.start_model().passes_reported == 0,
    {
        let n = data.len();
        let state = State::start(n, stop_on_failure, initial_k, timeout);
        Trials {
            state,
            data,
            rng: thread_rng(),
            failing_seeds: Vec::new(),
            history: Ghost(Seq::empty()),
            start: Ghost(state@),
        }
    }

    /// The counts of the run.
    pub fn state(&self) -> (s: &State)
        ensures
            s@ == self.state_model(),
    {
        &self.state
    }

    /// The seeds of all failed trials, in order.
    pub fn failing_seeds(&self) -> (seeds: &Vec<u64>)
        requires
            self.wf(),
        ensures
            seeds@ == failed_seeds(self.history()),
    {
        &self.failing_seeds
    }

    /// Draws a fresh seed and the dataset the data source gives for it.
    ///
    /// Fails only when the data source is an exhausted iterator.
    pub fn next_trial(&mut self) -> (r: Result<(u64, Vec<T>), Error>)
        requires
            old(self).wf(),
        ensures
            final(self).wf(),
            final(self).history() == old(self).history(),
            final(self).state_model() == old(self).state_model(),
            final(self).start_model() == old(self).start_model(),
            final(self).source().spec_len() == old(self).source().spec_len(),
            old(self).source() is Transformed ==> {
                &&& r is Ok
                &&& final(self).source() == old(self).source()
                &&& exists|d: &mut [T]|
                    #[trigger] old(self).source()->Transformed_transform.rewrites(d, r->Ok_0.0)
                        && clones(old(self).source()->Transformed_original@, d@) && final(d)@
                        == r->Ok_0.1@
            },
            old(self).source() is Iterable ==> {
                &&& final(self).source() is Iterable
                &&& final(self).source()->Iterable_length == old(self).source()->Iterable_length
                &&& match old(self).source()->Iterable_iter.pending() {
                    Some(items) => if items.len() > 0 {
                        &&& r is Ok
                        &&& r->Ok_0.1 == items[0]
                        &&& final(self).source()->Iterable_iter.pending() == Some(items.drop_first())
                    } else {
                        &&& r == Err::<(u64, Vec<T>), Error>(Error::DataSourceExhausted)
                        &&& final(self).source()->Iterable_iter.pending() == Some(items)
                    },
                    None => final(self).source()->Iterable_iter.pending() is None,
                }
            },
            r is Err ==> r == Err::<(u64, Vec<T>), Error>(Error::DataSourceExhausted),
    {
        let seed = random_seed(&mut self.rng);
        let ghost source = self.data;
        match self.data.get_data(seed) {
            Ok(data) => {
                let res: Result<(u64, Vec<T>), Error> = Ok((seed, data));
                proof {
                    if source is Transformed {
                        let d = choose|d: &mut [T]|
                            #[trigger] source->Transformed_transform.rewrites(d, seed) && clones(
                                source->Transformed_original@,
                                d@,
                            ) && final(d)@ == res->Ok_0.1@;
                        assert(source->Transformed_transform.rewrites(d, res->Ok_0.0) && clones(
                            source->Transformed_original@,
                            d@,
                        ) && final(d)@ == res->Ok_0.1@);
                    }
                }
                res
            },
            Err(e) => Err(e),
        }
    }

    /// Records the result of the trial for `seed`, keeping the seed if it failed.
    ///
    /// `estimate` maps the evidence (failures and passes reported) to the number of
    /// iterations required.
    pub fn record_trial<F: Fn(usize, usize) -> usize>(
        &mut self,
        seed: u64,
        passed: bool,
        estimate: &F,
    )
        requires
            old(self).wf(),
            estimate_callable(*estimate),
            old(self).state_model().iterations < usize::MAX,
            old(self).state_model().failures_reported < usize::MAX,
            old(self).state_model().passes_reported + old(self).state_model().unreported_passes
                < usize::MAX,
        ensures
            final(self).wf(),
            final(self).history() == old(self).history().push((seed, passed)),
            final(self).state_model() == (StateModel {
                current_k: final(self).state_model().current_k,
                ..old(self).state_model().tally(passed)
            }),
            final(self).state_model().passes == final(self).state_model().iterations
                ==> final(self).state_model().current_k == old(self).state_model().current_k,
            final(self).state_model().passes < final(self).state_model().iterations
                ==> call_ensures(
                *estimate,
                (
                    final(self).state_model().failures_reported as usize,
                    final(self).state_model().passes_reported as usize,
                ),
                final(self).state_model().current_k as usize,
            ),
            final(self).source() == old(self).source(),
            final(self).start_model() == old(self).start_model(),
    {
        self.state.record_result(passed, estimate);
        if !passed {
            self.failing_seeds.push(seed);
        }
        let ghost prev = self.history@;
        self.history = Ghost(prev.push((seed, passed)));
        proof {
            assert(self.history@.drop_last() == prev);
            assert(outcomes(self.history@).drop_last() == outcomes(prev));
        }
    }

    /// How the run stands, given whether its time limit was reached and whether its
    /// observed pass ratio meets the required one.
    pub fn verdict(&self, timed_out: bool, ratio_met: bool) -> (v: Verdict)
        ensures
            v == spec_verdict(self.state_model(), timed_out, ratio_met),
    {
        if timed_out {
            Verdict::TimedOut
        } else if !self.state.stops_by_counts() {
            Verdict::Continue
        } else if self.state.has_passed(ratio_met) {
            Verdict::Passed
        } else {
            Verdict::Failed
        }
    }
}


/// The note printed when a run ends with an error.
pub open spec fn error_note_text(e: Error) -> Seq<char> {
    match e {
        Error::TimedOut => "Test ended due to timeout before sufficient evidence was gathered."@,
        Error::DataSourceExhausted =>
            "Test ended because the data source was exhausted before sufficient evidence was gathered."@,
        Error::Internal(msg) => "Internal error: "@ + msg@,
    }
}

/// The note printed when a run ends with an error.
pub fn error_note(e: &Error) -> (note: String)
    ensures
        note@ == error_note_text(*e),
{
    match e {
        Error::TimedOut => String::from_str(
            "Test ended due to timeout before sufficient evidence was gathered.",
        ),
        Error::DataSourceExhausted => String::from_str(
            "Test ended because the data source was exhausted before sufficient evidence was gathered.",
        ),
        Error::Internal(msg) => {
            let mut note = String::from_str("Internal error: ");
            note.append(msg.as_str());
            note
        },
    }
}

/// The note that names the last failing seed of a failed run, in hexadecimal.
pub fn seed_note(seed: u64) -> (note: String)
    ensures
        note@ == "Last failing seed: 0x"@ + hex_text(seed as nat),
{
    let mut note = String::from_str("Last failing seed: 0x");
    note.append(u64_to_hex(seed).as_str());
    note
}

} // verus!
