//! The bookkeeping of a BOAST run: iteration and pass counts, the evidence that
//! feeds the Bayesian update, and the stopping rule.
//!
//! The Beta prior of the failure probability is `Beta(a0, b0)`; the evidence kept
//! here is how much has been added to each of its parameters: the posterior is
//! `Beta(a0 + failures_reported, b0 + passes_reported)`. Passes are reported to the
//! posterior only once a failure has been seen in the current run, so a run that
//! never fails leaves the evidence untouched.
use vstd::prelude::*;

use std::time::{Duration, Instant};

verus! {

/// A point in time of the standard library's monotonic clock.
#[verifier::external_type_specification]
#[verifier::external_body]
pub struct ExInstant(Instant);

/// Calls `Instant::now`: the current time. Nothing is claimed of it.
#[verifier::external_body]
fn clock_now() -> Instant {
    Instant::now()
}

/// Calls `Instant::elapsed`: the time passed since `start`. Nothing is claimed of it.
#[verifier::external_body]
fn elapsed_since(start: &Instant) -> Duration {
    start.elapsed()
}

/// The whole nanoseconds that a duration holds.
pub uninterp spec fn whole_nanos(d: Duration) -> u128;

/// Calls `Duration::as_nanos`, which gives the whole nanoseconds of a duration: a
/// function of the duration alone, named [`whole_nanos`]. Nothing more is claimed of it.
#[verifier::external_body]
fn duration_nanos(d: &Duration) -> (n: u128)
    ensures
        n == whole_nanos(*d),
{
    d.as_nanos()
}

/// Whether a run that has lasted `elapsed` has reached the time limit `limit`.
pub fn limit_reached(elapsed: &Duration, limit: &Duration) -> (reached: bool)
    ensures
        reached == (whole_nanos(*elapsed) >= whole_nanos(*limit)),
{
    duration_nanos(elapsed) >= duration_nanos(limit)
}

/// The mathematical content of a [`State`].
pub struct StateModel {
    /// The size of the data set under test.
    pub n: nat,
    /// Whether the run ends at its first failure (a required pass ratio of 1 or more).
    pub stop_on_failure: bool,
    /// The time limit of a run, if any.
    pub timeout: Option<Duration>,
    /// The number of iterations first estimated to be required.
    pub initial_k: nat,
    /// The number of iterations currently estimated to be required.
    pub current_k: nat,
    /// Iterations performed in the current run.
    pub iterations: nat,
    /// Passing iterations in the current run.
    pub passes: nat,
    /// Passes of the current run not yet reported to the posterior.
    pub unreported_passes: nat,
    /// Total added to the `a` (failure) parameter of the posterior.
    pub failures_reported: nat,
    /// Total added to the `b` (pass) parameter of the posterior.
    pub passes_reported: nat,
}

impl StateModel {
    /// The counts are consistent: passes are at most the iterations; while the run
    /// has not failed, every pass is still unreported; once it has failed, every
    /// pass has been reported.
    pub open spec fn wf(self) -> bool {
        &&& self.passes <= self.iterations
        &&& self.unreported_passes <= self.passes
        &&& self.passes == self.iterations ==> self.unreported_passes == self.passes
        &&& self.passes < self.iterations ==> self.unreported_passes == 0
    }

    /// Every count fits in a `usize`.
    pub open spec fn bounded(self) -> bool {
        &&& self.n <= usize::MAX
        &&& self.initial_k <= usize::MAX
        &&& self.current_k <= usize::MAX
        &&& self.iterations <= usize::MAX
        &&& self.passes <= usize::MAX
        &&& self.unreported_passes <= usize::MAX
        &&& self.failures_reported <= usize::MAX
        &&& self.passes_reported <= usize::MAX
    }

    /// The counts after recording one result; the estimate of the required
    /// iterations is left as it was.
    ///
    /// A failure adds one to the failure parameter. A pass adds one to the pass
    /// parameter, held back until the run has failed once: the first failure reports
    /// the passes held back before it.
    pub open spec fn tally(self, passed: bool) -> StateModel {
        let iterations = self.iterations + 1;
        let passes = if passed { self.passes + 1 } else { self.passes };
        let unreported = if passed { self.unreported_passes + 1 } else { self.unreported_passes };
        if passes < iterations {
            StateModel {
                iterations,
                passes,
                unreported_passes: 0,
                failures_reported: self.failures_reported + if passed { 0nat } else { 1nat },
                passes_reported: self.passes_reported + unreported,
                ..self
            }
        } else {
            StateModel { iterations, passes, unreported_passes: unreported, ..self }
        }
    }

    /// The counts after recording a sequence of results, one after the other.
    pub open spec fn tally_all(self, results: Seq<bool>) -> StateModel
        decreases results.len(),
    {
        if results.len() == 0 {
            self
        } else {
            self.tally_all(results.drop_last()).tally(results.last())
        }
    }

    /// The run counters cleared, the evidence kept, and the estimate replaced by `k`.
    pub open spec fn restart(self, k: nat) -> StateModel {
        StateModel { current_k: k, iterations: 0, passes: 0, unreported_passes: 0, ..self }
    }

    /// The number of failing iterations in the current run.
    pub open spec fn failures(self) -> int {
        self.iterations - self.passes
    }

    /// Whether the counts end the run: at once after a failure when every iteration
    /// must pass, and otherwise once the estimated number of iterations is reached.
    pub open spec fn stops_by_counts(self) -> bool {
        ||| self.stop_on_failure && self.passes < self.iterations
        ||| self.iterations >= self.current_k
    }

    /// Whether enough iterations were performed to fulfil the confidence: at least
    /// the smaller of the first and the current estimate.
    pub open spec fn has_sufficient_evidence(self) -> bool {
        self.iterations >= if self.initial_k <= self.current_k {
            self.initial_k
        } else {
            self.current_k
        }
    }
}

/// The number of passes among `results`.
pub open spec fn count_passes(results: Seq<bool>) -> nat
    decreases results.len(),
{
    if results.len() == 0 {
        0
    } else {
        count_passes(results.drop_last()) + if results.last() { 1nat } else { 0nat }
    }
}

/// Recording a result keeps the counts consistent.
pub proof fn lemma_tally_keeps_wf(m: StateModel, passed: bool)
    requires
        m.wf(),
    ensures
        m.tally(passed).wf(),
{
}

/// Starting a new run keeps the counts consistent.
pub proof fn lemma_restart_keeps_wf(m: StateModel, k: nat)
    requires
        m.wf(),
    ensures
        m.restart(k).wf(),
{
}

/// A run's evidence: after a run of `results` from a reset, the iterations are the
/// results and the passes are those that passed. Every failure adds one to the
/// failure parameter. The passes are held back while no result has failed, and once
/// one has, every pass of the run has been added to the pass parameter.
pub proof fn lemma_run_evidence(m: StateModel, results: Seq<bool>)
    requires
        m.wf(),
        m.iterations == 0,
    ensures
        ({
            let e = m.tally_all(results);
            let passes = count_passes(results);
            &&& e.wf()
            &&& e.iterations == results.len()
            &&& e.passes == passes
            &&& e.failures() == results.len() - passes
            &&& e.failures_reported == m.failures_reported + (results.len() - passes)
            &&& passes == results.len() ==> {
                &&& e.unreported_passes == results.len()
                &&& e.passes_reported == m.passes_reported
            }
            &&& passes < results.len() ==> {
                &&& e.unreported_passes == 0
                &&& e.passes_reported == m.passes_reported + passes
            }
            &&& e.n == m.n
            &&& e.stop_on_failure == m.stop_on_failure
            &&& e.timeout == m.timeout
            &&& e.initial_k == m.initial_k
            &&& e.current_k == m.current_k
        }),
    decreases results.len(),
{
    if results.len() > 0 {
        let prev = results.drop_last();
        lemma_run_evidence(m, prev);
        lemma_count_passes_bound(prev);
    }
}

/// There are at most as many passes as results.
pub proof fn lemma_count_passes_bound(results: Seq<bool>)
    ensures
        count_passes(results) <= results.len(),
    decreases results.len(),
{
    if results.len() > 0 {
        lemma_count_passes_bound(results.drop_last());
    }
}

/// When every iteration must pass, a run stops at its first failure: as soon as
/// a result has failed, the stopping rule holds, whatever the estimate.
pub proof fn lemma_stop_at_first_failure(m: StateModel, results: Seq<bool>)
    requires
        m.wf(),
        m.iterations == 0,
        m.stop_on_failure,
        count_passes(results) < results.len(),
    ensures
        m.tally_all(results).stops_by_counts(),
{
    lemma_run_evidence(m, results);
}

/// The stopping rule by counts: when every iteration must pass, a failure ends the
/// run; otherwise the run ends exactly when its iterations reach the current
/// estimate, whatever the first estimate was.
pub proof fn lemma_stop_rule(m: StateModel)
    ensures
        m.stop_on_failure && m.passes < m.iterations ==> m.stops_by_counts(),
        !(m.stop_on_failure && m.passes < m.iterations) ==> (m.stops_by_counts() <==> m.iterations
            >= m.current_k),
{
}

/// There is sufficient evidence exactly when the iterations have reached the first
/// estimate or the current one.
pub proof fn lemma_sufficient_evidence_rule(m: StateModel)
    ensures
        m.has_sufficient_evidence() <==> (m.iterations >= m.initial_k || m.iterations
            >= m.current_k),
        m.iterations >= m.initial_k ==> m.has_sufficient_evidence(),
{
}

/// A reset clears the run counters and keeps the evidence: the state after it is
/// the same whatever the run before it was.
pub proof fn lemma_restart_forgets_run(m1: StateModel, m2: StateModel, k: nat)
    requires
        m1.n == m2.n,
        m1.stop_on_failure == m2.stop_on_failure,
        m1.timeout == m2.timeout,
        m1.initial_k == m2.initial_k,
        m1.failures_reported == m2.failures_reported,
        m1.passes_reported == m2.passes_reported,
    ensures
        m1.restart(k) == m2.restart(k),
        m1.restart(k).iterations == 0,
        m1.restart(k).passes == 0,
        m1.restart(k).unreported_passes == 0,
{
}

/// State for Bayesian Outlier-Aware Sequential Testing (BOAST).
///
/// Keeps track of the current state of the BOAST process: iteration counts, pass
/// counts, and the evidence added to the Bayesian parameters.
#[derive(Debug, Clone, Copy)]
pub struct State {
    n: usize,
    stop_on_failure: bool,
    timeout: Option<Duration>,
    start_time: Instant,
    initial_k: usize,
    current_k: usize,
    iterations: usize,
    passes: usize,
    unreported_passes: usize,
    failures_reported: usize,
    passes_reported: usize,
}

impl View for State {
    type V = StateModel;

    closed spec fn view(&self) -> StateModel {
        StateModel {
            n: self.n as nat,
            stop_on_failure: self.stop_on_failure,
            timeout: self.timeout,
            initial_k: self.initial_k as nat,
            current_k: self.current_k as nat,
            iterations: self.iterations as nat,
            passes: self.passes as nat,
            unreported_passes: self.unreported_passes as nat,
            failures_reported: self.failures_reported as nat,
            passes_reported: self.passes_reported as nat,
        }
    }
}

/// Whether a function from evidence counts to a number of iterations can be called
/// on all counts.
pub open spec fn estimate_callable<F: Fn(usize, usize) -> usize>(estimate: F) -> bool {
    forall|failures: usize, passes: usize| call_requires(estimate, (failures, passes))
}

impl State {
    /// Creates the state of a fresh run over data sets of size `n`, with no evidence
    /// yet and `initial_k` as the estimate of the iterations required; the run's clock
    /// starts now.
    ///
    /// `stop_on_failure` says whether every iteration must pass; `timeout` is the time
    /// limit of a run, if any.
    pub fn start(n: usize, stop_on_failure: bool, initial_k: usize, timeout: Option<Duration>) -> (s: State)
        ensures
            s@ == (StateModel {
                n: n as nat,
                stop_on_failure,
                timeout,
                initial_k: initial_k as nat,
                current_k: initial_k as nat,
                iterations: 0,
                passes: 0,
                unreported_passes: 0,
                failures_reported: 0,
                passes_reported: 0,
            }),
            s@.wf(),
            s@.bounded(),
    {
        State {
            n,
            stop_on_failure,
            timeout,
            start_time: clock_now(),
            initial_k,
            current_k: initial_k,
            iterations: 0,
            passes: 0,
            unreported_passes: 0,
            failures_reported: 0,
            passes_reported: 0,
        }
    }

    /// Starts a new run: restarts the clock, clears the iteration and pass counts,
    /// keeps the evidence, and estimates the required iterations anew from it.
    ///
    /// `estimate` maps the evidence (failures and passes reported) to a number of
    /// iterations.
    pub fn reset<F: Fn(usize, usize) -> usize>(&mut self, estimate: &F)
        requires
            old(self)@.wf(),
            estimate_callable(*estimate),
        ensures
            final(self)@ == old(self)@.restart(final(self)@.current_k),
            call_ensures(
                *estimate,
                (old(self)@.failures_reported as usize, old(self)@.passes_reported as usize),
                final(self)@.current_k as usize,
            ),
            final(self)@.wf(),
            final(self)@.bounded(),
    {
        self.start_time = clock_now();
        self.iterations = 0;
        self.passes = 0;
        self.unreported_passes = 0;
        self.current_k = estimate(self.failures_reported, self.passes_reported);
    }

    /// Records the result of a test iteration, updating the evidence and the
    /// estimate of the required iterations.
    ///
    /// Each failure adds one to the failure parameter and each pass one to the pass
    /// parameter, passes being held back until the run has failed once. When the
    /// result adds evidence, the required iterations are estimated anew from it;
    /// otherwise the estimate stays as it was.
    pub fn record_result<F: Fn(usize, usize) -> usize>(&mut self, passed: bool, estimate: &F)
        requires
            old(self)@.wf(),
            estimate_callable(*estimate),
            old(self)@.iterations < usize::MAX,
            old(self)@.failures_reported < usize::MAX,
            old(self)@.passes_reported + old(self)@.unreported_passes < usize::MAX,
        ensures
            final(self)@ == (StateModel {
                current_k: final(self)@.current_k,
                ..old(self)@.tally(passed)
            }),
            final(self)@.passes == final(self)@.iterations ==> final(self)@.current_k
                == old(self)@.current_k,
            final(self)@.passes < final(self)@.iterations ==> call_ensures(
                *estimate,
                (final(self)@.failures_reported as usize, final(self)@.passes_reported as usize),
                final(self)@.current_k as usize,
            ),
            final(self)@.wf(),
            final(self)@.bounded(),
    {
        self.iterations = self.iterations + 1;
        if passed {
            self.passes = self.passes + 1;
            self.unreported_passes = self.unreported_passes + 1;
        }
        if self.passes < self.iterations {
            if !passed {
                self.failures_reported = self.failures_reported + 1;
            }
            self.passes_reported = self.passes_reported + self.unreported_passes;
            self.unreported_passes = 0;
            self.current_k = estimate(self.failures_reported, self.passes_reported);
        }
    }

    /// Every count of a state fits in a `usize`.
    pub proof fn lemma_bounded(&self)
        ensures
            self@.bounded(),
    {
    }

    /// The size of the data set under test.
    pub fn n(&self) -> (n: usize)
        ensures
            n == self@.n,
    {
        self.n
    }

    /// Whether the run ends at its first failure.
    pub fn stop_on_failure(&self) -> (b: bool)
        ensures
            b == self@.stop_on_failure,
    {
        self.stop_on_failure
    }

    /// The initially estimated required number of iterations to achieve confidence `q`.
    pub fn initial_k(&self) -> (k: usize)
        ensures
            k == self@.initial_k,
    {
        self.initial_k
    }

    /// The currently estimated required number of iterations to achieve confidence `q`.
    pub fn current_k(&self) -> (k: usize)
        ensures
            k == self@.current_k,
    {
        self.current_k
    }

    /// The total number of iterations performed so far in this run.
    pub fn iterations(&self) -> (i: usize)
        ensures
            i == self@.iterations,
    {
        self.iterations
    }

    /// The number of passing iterations performed so far in this run.
    pub fn passes(&self) -> (p: usize)
        ensures
            p == self@.passes,
    {
        self.passes
    }

    /// The number of failing iterations performed so far in this run.
    pub fn failures(&self) -> (f: usize)
        requires
            self@.wf(),
        ensures
            f == self@.failures(),
    {
        self.iterations - self.passes
    }

    /// The total added to the `a` (failure) parameter of the Beta distribution.
    pub fn failures_reported(&self) -> (a: usize)
        ensures
            a == self@.failures_reported,
    {
        self.failures_reported
    }

    /// The total added to the `b` (pass) parameter of the Beta distribution.
    pub fn passes_reported(&self) -> (b: usize)
        ensures
            b == self@.passes_reported,
    {
        self.passes_reported
    }

    /// The time limit of a run, if any.
    pub fn timeout(&self) -> (t: Option<Duration>)
        ensures
            t == self@.timeout,
    {
        self.timeout
    }

    /// Determines whether the run has reached its time limit. A run without a
    /// limit never has.
    ///
    /// The time passed since the run's clock started is read from the system clock, so
    /// a limit other than zero may or may not have been reached; a limit of zero
    /// always has.
    pub fn has_timed_out(&self) -> (timed_out: bool)
        ensures
            match self@.timeout {
                None => !timed_out,
                Some(limit) => exists|elapsed: Duration|
                    timed_out == (whole_nanos(elapsed) >= whole_nanos(limit)),
            },
            self@.timeout is Some && whole_nanos(self@.timeout->0) == 0 ==> timed_out,
    {
        match &self.timeout {
            Some(limit) => {
                let elapsed = elapsed_since(&self.start_time);
                limit_reached(&elapsed, limit)
            },
            None => false,
        }
    }

    /// Determines whether the test ends, based on the current state and options:
    /// once the time limit, if any, is reached, and otherwise when the counts end it.
    ///
    /// The time passed is read from the system clock, as in [`State::has_timed_out`].
    pub fn should_stop(&self) -> (stop: bool)
        ensures
            match self@.timeout {
                None => stop == self@.stops_by_counts(),
                Some(limit) => exists|elapsed: Duration|
                    stop == (self@.stops_by_counts() || whole_nanos(elapsed) >= whole_nanos(limit)),
            },
            self@.stops_by_counts() ==> stop,
            self@.timeout is Some && whole_nanos(self@.timeout->0) == 0 ==> stop,
    {
        let by_counts = self.stops_by_counts();
        let timed_out = self.has_timed_out();
        proof {
            if let Some(limit) = self@.timeout {
                let elapsed = choose|elapsed: Duration|
                    timed_out == (whole_nanos(elapsed) >= whole_nanos(limit));
                assert((by_counts || timed_out) == (self@.stops_by_counts() || whole_nanos(elapsed)
                    >= whole_nanos(limit)));
            }
        }
        by_counts || timed_out
    }

    /// Determines whether the counts end the run, whatever the time.
    pub fn stops_by_counts(&self) -> (stop: bool)
        ensures
            stop == self@.stops_by_counts(),
    {
        if self.stop_on_failure && self.passes < self.iterations {
            // every iteration must pass and one has failed: stop immediately
            return true;
        }
        // otherwise, stop once there is enough evidence
        self.iterations >= self.current_k
    }

    /// Determines whether there is sufficient evidence to fulfil `q`.
    pub fn has_sufficient_evidence(&self) -> (enough: bool)
        ensures
            enough == self@.has_sufficient_evidence(),
    {
        let min_iterations = if self.initial_k <= self.current_k {
            self.initial_k
        } else {
            self.current_k
        };
        self.iterations >= min_iterations
    }

    /// Determines whether there is enough evidence to fulfil `q` and the pass ratio
    /// requirement, given whether the observed pass ratio meets the required one.
    pub fn has_passed(&self, ratio_met: bool) -> (passed: bool)
        ensures
            passed == (ratio_met && self@.has_sufficient_evidence()),
    {
        ratio_met && self.has_sufficient_evidence()
    }
}

} // verus!
