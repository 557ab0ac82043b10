# boast

Bayesian Outlier-Aware Sequential Testing for same-size transformed data sets,
for numerical libraries and statistical property tests: a test is run on one
dataset after another until there is enough evidence, with a Beta prior on the
failure probability that is updated as results come in.

## Layout

- `src/` is the verified library (Verus):
  - `state.rs`: the counts of a run, the evidence added to the Beta posterior,
    the stopping rule and the laws that relate them;
  - `runner.rs`: the trials of a run (seeds from `rand`, datasets, the seeds of
    failed trials) and the verdict;
  - `data_src.rs`, `biod.rs`: the data sources (transformed, generated,
    iterable);
  - `progress.rs`: the progress bar and the progress line;
  - `cli.rs`, `load.rs`, `text.rs`: the command line of the `boast-cli`
    program, loading datasets from JSON (`serde_json`) or from a command's
    output, and the text handling they need;
  - `test_args.rs`: the keys of the `#[boast::test(..)]` attribute;
  - `error.rs`: the run's errors.
- `app/` holds the programs and the floating-point side: the options, the
  prior and the estimate of the required iterations (logarithms and powers),
  the confidence intervals (`statrs`), the test loop with panic capture and the
  clock, the `boast-cli` program and the experiments (`csv`, `rand_distr`).
- `tests/` exercises the library.
