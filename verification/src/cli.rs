//! The command line of the BOAST runner program: which options it takes, which
//! values they need, and what is missing.
use vstd::prelude::*;

use crate::text::{parse_u64, spec_parse_u64, str_eq, texts};

verus! {

/// Where the datasets of a command-line run come from.
pub enum SourceSpec {
    /// A JSON file holding an array of datasets, each an array of values.
    JsonFile(String),
    /// A command run once per dataset, with the seed as its first argument.
    Command(String),
}

/// The settings of a command-line run.
///
/// The confidence, outlier rate and pass ratio are kept as written; each was
/// checked to read as a floating-point number.
pub struct CliArgs {
    pub q: String,
    pub p: String,
    pub pass_ratio: Option<String>,
    pub timeout: Option<u64>,
    pub data_source: SourceSpec,
    pub test_cmd: String,
}

/// What the command line asks for.
pub enum CliCommand {
    /// Run a test with these settings.
    Run(CliArgs),
    /// Print the usage text and exit.
    Help,
}

/// Why a command line was refused.
#[derive(Debug, Clone, Copy, PartialEq, Eq)]
pub enum CliError {
    MissingConfidenceValue,
    BadConfidence,
    MissingOutlierRateValue,
    BadOutlierRate,
    MissingPassRatioValue,
    BadPassRatio,
    MissingTimeoutValue,
    BadTimeout,
    MissingTestValue,
    MissingJsonValue,
    MissingCommandValue,
    UnknownArgument,
    MissingConfidence,
    MissingOutlierRate,
    MissingDataSource,
    MissingTestCommand,
}

/// The text that describes a refusal.
pub open spec fn cli_error_text(e: CliError) -> Seq<char> {
    match e {
        CliError::MissingConfidenceValue => "Missing value for confidence"@,
        CliError::BadConfidence => "confidence should be a float from 0.0 to 1.0"@,
        CliError::MissingOutlierRateValue => "Missing value for outlier_rate"@,
        CliError::BadOutlierRate => "outlier_rate should be a float from 0.0 to 1.0"@,
        CliError::MissingPassRatioValue => "Missing value for pass_ratio"@,
        CliError::BadPassRatio => "pass_ratio should be a float from 0.0 to 1.0"@,
        CliError::MissingTimeoutValue => "Missing value for timeout"@,
        CliError::BadTimeout => "timeout should be an integer representing seconds"@,
        CliError::MissingTestValue => "Missing value for test command"@,
        CliError::MissingJsonValue => "Missing value for JSON data source"@,
        CliError::MissingCommandValue => "Missing value for command data source"@,
        CliError::UnknownArgument => "Unknown argument"@,
        CliError::MissingConfidence => "Missing required argument: confidence (or q)"@,
        CliError::MissingOutlierRate => "Missing required argument: outlier_rate (or p)"@,
        CliError::MissingDataSource => "Missing required argument: data source (--src-json or --src-cmd)"@,
        CliError::MissingTestCommand => "Missing required argument: test command (--test)"@,
    }
}

impl CliError {
    /// Describes the refusal in words.
    pub fn message(&self) -> (text: &'static str)
        ensures
            text@ == cli_error_text(*self),
    {
        match self {
            CliError::MissingConfidenceValue => "Missing value for confidence",
            CliError::BadConfidence => "confidence should be a float from 0.0 to 1.0",
            CliError::MissingOutlierRateValue => "Missing value for outlier_rate",
            CliError::BadOutlierRate => "outlier_rate should be a float from 0.0 to 1.0",
            CliError::MissingPassRatioValue => "Missing value for pass_ratio",
            CliError::BadPassRatio => "pass_ratio should be a float from 0.0 to 1.0",
            CliError::MissingTimeoutValue => "Missing value for timeout",
            CliError::BadTimeout => "timeout should be an integer representing seconds",
            CliError::MissingTestValue => "Missing value for test command",
            CliError::MissingJsonValue => "Missing value for JSON data source",
            CliError::MissingCommandValue => "Missing value for command data source",
            CliError::UnknownArgument => "Unknown argument",
            CliError::MissingConfidence => "Missing required argument: confidence (or q)",
            CliError::MissingOutlierRate => "Missing required argument: outlier_rate (or p)",
            CliError::MissingDataSource => "Missing required argument: data source (--src-json or --src-cmd)",
            CliError::MissingTestCommand => "Missing required argument: test command (--test)",
        }
    }
}

/// The mathematical content of a [`SourceSpec`].
pub enum SourceModel {
    JsonFile(Seq<char>),
    Command(Seq<char>),
}

/// The settings gathered so far while reading a command line.
pub struct Gathered {
    pub q: Option<Seq<char>>,
    pub p: Option<Seq<char>>,
    pub pass_ratio: Option<Seq<char>>,
    pub timeout: Option<u64>,
    pub data_source: Option<SourceModel>,
    pub test_cmd: Option<Seq<char>>,
}

/// The mathematical content of a [`CliArgs`].
pub struct RunModel {
    pub q: Seq<char>,
    pub p: Seq<char>,
    pub pass_ratio: Option<Seq<char>>,
    pub timeout: Option<u64>,
    pub data_source: SourceModel,
    pub test_cmd: Seq<char>,
}

/// The mathematical content of a [`CliCommand`].
pub enum CommandModel {
    Run(RunModel),
    Help,
}

/// How reading a command line from some position on ends.
pub enum Scan {
    /// Every argument was read, gathering these settings.
    Done(Gathered),
    /// The usage text was asked for.
    Help,
    /// An argument was refused.
    Fail(CliError),
}

/// Nothing gathered yet.
pub open spec fn nothing_gathered() -> Gathered {
    Gathered { q: None, p: None, pass_ratio: None, timeout: None, data_source: None, test_cmd: None }
}

/// Reads the command line `args` from position `i` on, having gathered `acc`.
///
/// `float_ok[j]` says whether `args[j]` reads as a floating-point number. Each
/// option takes the argument after it as its value; the last value given for an
/// option counts.
pub open spec fn scan(args: Seq<Seq<char>>, float_ok: Seq<bool>, i: int, acc: Gathered) -> Scan
    decreases args.len() - i,
{
    if i < 0 || i >= args.len() {
        Scan::Done(acc)
    } else {
        let a = args[i];
        let has_value = i + 1 < args.len();
        if a == "-q"@ || a == "--confidence"@ {
            if !has_value {
                Scan::Fail(CliError::MissingConfidenceValue)
            } else if !float_ok[i + 1] {
                Scan::Fail(CliError::BadConfidence)
            } else {
                scan(args, float_ok, i + 2, Gathered { q: Some(args[i + 1]), ..acc })
            }
        } else if a == "-p"@ || a == "--outlier_rate"@ {
            if !has_value {
                Scan::Fail(CliError::MissingOutlierRateValue)
            } else if !float_ok[i + 1] {
                Scan::Fail(CliError::BadOutlierRate)
            } else {
                scan(args, float_ok, i + 2, Gathered { p: Some(args[i + 1]), ..acc })
            }
        } else if a == "--pass_ratio"@ {
            if !has_value {
                Scan::Fail(CliError::MissingPassRatioValue)
            } else if !float_ok[i + 1] {
                Scan::Fail(CliError::BadPassRatio)
            } else {
                scan(args, float_ok, i + 2, Gathered { pass_ratio: Some(args[i + 1]), ..acc })
            }
        } else if a == "--timeout"@ {
            if !has_value {
                Scan::Fail(CliError::MissingTimeoutValue)
            } else {
                match spec_parse_u64(args[i + 1]) {
                    None => Scan::Fail(CliError::BadTimeout),
                    Some(t) => scan(args, float_ok, i + 2, Gathered { timeout: Some(t), ..acc }),
                }
            }
        } else if a == "--test"@ {
            if !has_value {
                Scan::Fail(CliError::MissingTestValue)
            } else {
                scan(args, float_ok, i + 2, Gathered { test_cmd: Some(args[i + 1]), ..acc })
            }
        } else if a == "--src-json"@ {
            if !has_value {
                Scan::Fail(CliError::MissingJsonValue)
            } else {
                scan(
                    args,
                    float_ok,
                    i + 2,
                    Gathered { data_source: Some(SourceModel::JsonFile(args[i + 1])), ..acc },
                )
            }
        } else if a == "--src-cmd"@ {
            if !has_value {
                Scan::Fail(CliError::MissingCommandValue)
            } else {
                scan(
                    args,
                    float_ok,
                    i + 2,
                    Gathered { data_source: Some(SourceModel::Command(args[i + 1])), ..acc },
                )
            }
        } else if a == "--help"@ {
            Scan::Help
        } else {
            Scan::Fail(CliError::UnknownArgument)
        }
    }
}

/// The settings, once every argument is read: the confidence, the outlier rate,
/// the data source and the test command are required, and checked in that order.
pub open spec fn finish(acc: Gathered) -> Result<CommandModel, CliError> {
    if acc.q is None {
        Err(CliError::MissingConfidence)
    } else if acc.p is None {
        Err(CliError::MissingOutlierRate)
    } else if acc.data_source is None {
        Err(CliError::MissingDataSource)
    } else if acc.test_cmd is None {
        Err(CliError::MissingTestCommand)
    } else {
        Ok(
            CommandModel::Run(
                RunModel {
                    q: acc.q->0,
                    p: acc.p->0,
                    pass_ratio: acc.pass_ratio,
                    timeout: acc.timeout,
                    data_source: acc.data_source->0,
                    test_cmd: acc.test_cmd->0,
                },
            ),
        )
    }
}

/// What the command line `args` asks for.
pub open spec fn parse_command_line(args: Seq<Seq<char>>, float_ok: Seq<bool>) -> Result<
    CommandModel,
    CliError,
> {
    match scan(args, float_ok, 0, nothing_gathered()) {
        Scan::Done(acc) => finish(acc),
        Scan::Help => Ok(CommandModel::Help),
        Scan::Fail(e) => Err(e),
    }
}

/// Reading a longer command line: where reading `args` from position `i` on reaches
/// its end without a refusal or a request for help, reading `args` followed by
/// `more` from `i` on reaches the end of `args` with the same settings gathered, and
/// goes on from there.
pub proof fn lemma_scan_prefix(
    args: Seq<Seq<char>>,
    float_ok: Seq<bool>,
    more: Seq<Seq<char>>,
    more_ok: Seq<bool>,
    i: int,
    acc: Gathered,
)
    requires
        float_ok.len() == args.len(),
        more_ok.len() == more.len(),
        0 <= i <= args.len(),
        scan(args, float_ok, i, acc) is Done,
    ensures
        scan(args + more, float_ok + more_ok, i, acc) == scan(
            args + more,
            float_ok + more_ok,
            args.len() as int,
            scan(args, float_ok, i, acc)->Done_0,
        ),
    decreases args.len() - i,
{
    let all = args + more;
    let all_ok = float_ok + more_ok;
    if i < args.len() {
        let a = args[i];
        assert(all[i] == a);
        if i + 1 < args.len() {
            assert(all[i + 1] == args[i + 1]);
            assert(all_ok[i + 1] == float_ok[i + 1]);
        }
        if a == "-q"@ || a == "--confidence"@ {
            lemma_scan_prefix(args, float_ok, more, more_ok, i + 2, Gathered { q: Some(args[i + 1]), ..acc });
        } else if a == "-p"@ || a == "--outlier_rate"@ {
            lemma_scan_prefix(args, float_ok, more, more_ok, i + 2, Gathered { p: Some(args[i + 1]), ..acc });
        } else if a == "--pass_ratio"@ {
            lemma_scan_prefix(
                args,
                float_ok,
                more,
                more_ok,
                i + 2,
                Gathered { pass_ratio: Some(args[i + 1]), ..acc },
            );
        } else if a == "--timeout"@ {
            let t = spec_parse_u64(args[i + 1])->Some_0;
            lemma_scan_prefix(args, float_ok, more, more_ok, i + 2, Gathered { timeout: Some(t), ..acc });
        } else if a == "--test"@ {
            lemma_scan_prefix(
                args,
                float_ok,
                more,
                more_ok,
                i + 2,
                Gathered { test_cmd: Some(args[i + 1]), ..acc },
            );
        } else if a == "--src-json"@ {
            lemma_scan_prefix(
                args,
                float_ok,
                more,
                more_ok,
                i + 2,
                Gathered { data_source: Some(SourceModel::JsonFile(args[i + 1])), ..acc },
            );
        } else if a == "--src-cmd"@ {
            lemma_scan_prefix(
                args,
                float_ok,
                more,
                more_ok,
                i + 2,
                Gathered { data_source: Some(SourceModel::Command(args[i + 1])), ..acc },
            );
        }
    }
}

/// The last confidence given counts: adding a confidence option with a value that
/// reads as a number to the end of a command line that asks for a run asks for the
/// same run with that confidence, whatever confidence came before it.
pub proof fn lemma_last_confidence_counts(
    args: Seq<Seq<char>>,
    float_ok: Seq<bool>,
    flag: Seq<char>,
    flag_ok: bool,
    value: Seq<char>,
    run: RunModel,
)
    requires
        float_ok.len() == args.len(),
        flag == "-q"@ || flag == "--confidence"@,
        parse_command_line(args, float_ok) == Ok::<CommandModel, CliError>(CommandModel::Run(run)),
    ensures
        parse_command_line(args + seq![flag, value], float_ok + seq![flag_ok, true]) == Ok::<
            CommandModel,
            CliError,
        >(CommandModel::Run(RunModel { q: value, ..run })),
{
    let more = seq![flag, value];
    let more_ok = seq![flag_ok, true];
    let all = args + more;
    let all_ok = float_ok + more_ok;
    let n = args.len() as int;
    lemma_scan_prefix(args, float_ok, more, more_ok, 0, nothing_gathered());
    let g = scan(args, float_ok, 0, nothing_gathered())->Done_0;
    assert(all[n] == flag);
    assert(all[n + 1] == value);
    assert(all_ok[n + 1]);
    let g2 = Gathered { q: Some(value), ..g };
    assert(scan(all, all_ok, n + 2, g2) == Scan::Done(g2));
    assert(scan(all, all_ok, n, g) == scan(all, all_ok, n + 2, g2));
}

/// Whether `arg` names the confidence option.
pub open spec fn is_confidence_flag(arg: Seq<char>) -> bool {
    arg == "-q"@ || arg == "--confidence"@
}

/// Reading arguments among which none names the confidence option leaves the
/// confidence gathered so far as it was.
pub proof fn lemma_scan_keeps_confidence(args: Seq<Seq<char>>, float_ok: Seq<bool>, i: int, acc: Gathered)
    requires
        float_ok.len() == args.len(),
        0 <= i,
        forall|j: int| i <= j < args.len() ==> !is_confidence_flag(#[trigger] args[j]),
        scan(args, float_ok, i, acc) is Done,
    ensures
        scan(args, float_ok, i, acc)->Done_0.q == acc.q,
    decreases args.len() - i,
{
    if i < args.len() {
        let a = args[i];
        assert(!is_confidence_flag(args[i]));
        if a == "-p"@ || a == "--outlier_rate"@ {
            lemma_scan_keeps_confidence(args, float_ok, i + 2, Gathered { p: Some(args[i + 1]), ..acc });
        } else if a == "--pass_ratio"@ {
            lemma_scan_keeps_confidence(
                args,
                float_ok,
                i + 2,
                Gathered { pass_ratio: Some(args[i + 1]), ..acc },
            );
        } else if a == "--timeout"@ {
            let t = spec_parse_u64(args[i + 1])->Some_0;
            lemma_scan_keeps_confidence(args, float_ok, i + 2, Gathered { timeout: Some(t), ..acc });
        } else if a == "--test"@ {
            lemma_scan_keeps_confidence(
                args,
                float_ok,
                i + 2,
                Gathered { test_cmd: Some(args[i + 1]), ..acc },
            );
        } else if a == "--src-json"@ {
            lemma_scan_keeps_confidence(
                args,
                float_ok,
                i + 2,
                Gathered { data_source: Some(SourceModel::JsonFile(args[i + 1])), ..acc },
            );
        } else if a == "--src-cmd"@ {
            lemma_scan_keeps_confidence(
                args,
                float_ok,
                i + 2,
                Gathered { data_source: Some(SourceModel::Command(args[i + 1])), ..acc },
            );
        }
    }
}

/// The last confidence given counts: a command line made of complete options
/// `before`, then a confidence option with `value`, then arguments `after` among
/// which none names the confidence option, asks, if it asks for a run, for a run
/// with confidence `value`, whatever confidences `before` gave.
pub proof fn lemma_later_confidence_wins(
    before: Seq<Seq<char>>,
    before_ok: Seq<bool>,
    flag: Seq<char>,
    flag_ok: bool,
    value: Seq<char>,
    value_ok: bool,
    after: Seq<Seq<char>>,
    after_ok: Seq<bool>,
)
    requires
        before_ok.len() == before.len(),
        after_ok.len() == after.len(),
        scan(before, before_ok, 0, nothing_gathered()) is Done,
        is_confidence_flag(flag),
        forall|j: int| 0 <= j < after.len() ==> !is_confidence_flag(#[trigger] after[j]),
        parse_command_line(
            before + seq![flag, value] + after,
            before_ok + seq![flag_ok, value_ok] + after_ok,
        ) is Ok,
        parse_command_line(
            before + seq![flag, value] + after,
            before_ok + seq![flag_ok, value_ok] + after_ok,
        )->Ok_0 is Run,
    ensures
        parse_command_line(
            before + seq![flag, value] + after,
            before_ok + seq![flag_ok, value_ok] + after_ok,
        )->Ok_0->Run_0.q == value,
{
    let more = seq![flag, value] + after;
    let more_ok = seq![flag_ok, value_ok] + after_ok;
    let all = before + seq![flag, value] + after;
    let all_ok = before_ok + seq![flag_ok, value_ok] + after_ok;
    assert(all == before + more);
    assert(all_ok == before_ok + more_ok);
    let n = before.len() as int;
    lemma_scan_prefix(before, before_ok, more, more_ok, 0, nothing_gathered());
    let g = scan(before, before_ok, 0, nothing_gathered())->Done_0;
    assert(all[n] == flag);
    assert(all[n + 1] == value);
    assert(all_ok[n + 1] == value_ok);
    let g2 = Gathered { q: Some(value), ..g };
    assert(scan(all, all_ok, n, g) == scan(all, all_ok, n + 2, g2));
    assert forall|j: int| n + 2 <= j < all.len() implies !is_confidence_flag(#[trigger] all[j]) by {
        assert(all[j] == after[j - n - 2]);
    }
    lemma_scan_keeps_confidence(all, all_ok, n + 2, g2);
}

/// The mathematical content of a [`SourceSpec`].
pub open spec fn source_model(s: SourceSpec) -> SourceModel {
    match s {
        SourceSpec::JsonFile(path) => SourceModel::JsonFile(path@),
        SourceSpec::Command(cmd) => SourceModel::Command(cmd@),
    }
}

/// The text of an optional string.
pub open spec fn opt_text(s: Option<String>) -> Option<Seq<char>> {
    match s {
        Some(t) => Some(t@),
        None => None,
    }
}

/// The mathematical content of the result of reading a command line.
pub open spec fn command_result_model(r: Result<CliCommand, CliError>) -> Result<
    CommandModel,
    CliError,
> {
    match r {
        Ok(CliCommand::Help) => Ok(CommandModel::Help),
        Ok(CliCommand::Run(a)) => Ok(
            CommandModel::Run(
                RunModel {
                    q: a.q@,
                    p: a.p@,
                    pass_ratio: opt_text(a.pass_ratio),
                    timeout: a.timeout,
                    data_source: source_model(a.data_source),
                    test_cmd: a.test_cmd@,
                },
            ),
        ),
        Err(e) => Err(e),
    }
}

/// The text of an optional source.
pub open spec fn opt_source(s: Option<SourceSpec>) -> Option<SourceModel> {
    match s {
        Some(t) => Some(source_model(t)),
        None => None,
    }
}

/// Reads the command line `args` (without the program's name).
///
/// `float_ok[j]` says whether `args[j]` reads as a floating-point number.
pub fn parse_cli_args(args: &Vec<String>, float_ok: &Vec<bool>) -> (r: Result<CliCommand, CliError>)
    requires
        float_ok@.len() == args@.len(),
    ensures
        command_result_model(r) == parse_command_line(texts(args@), float_ok@),
{
    let ghost all = texts(args@);
    let n = args.len();
    let mut q: Option<String> = None;
    let mut p: Option<String> = None;
    let mut pass_ratio: Option<String> = None;
    let mut timeout: Option<u64> = None;
    let mut data_source: Option<SourceSpec> = None;
    let mut test_cmd: Option<String> = None;
    let mut i: usize = 0;
    while i < n
        invariant
            n == args@.len(),
            float_ok@.len() == n,
            all == texts(args@),
            i <= n,
            scan(all, float_ok@, 0, nothing_gathered()) == scan(
                all,
                float_ok@,
                i as int,
                Gathered {
                    q: opt_text(q),
                    p: opt_text(p),
                    pass_ratio: opt_text(pass_ratio),
                    timeout,
                    data_source: opt_source(data_source),
                    test_cmd: opt_text(test_cmd),
                },
            ),
        decreases n - i,
    {
        let a = args[i].as_str();
        let has_value = i + 1 < n;
        assert(all[i as int] == a@);
        if str_eq(a, "-q") || str_eq(a, "--confidence") {
            if !has_value {
                return Err(CliError::MissingConfidenceValue);
            }
            if !float_ok[i + 1] {
                return Err(CliError::BadConfidence);
            }
            q = Some(args[i + 1].clone());
            i = i + 2;
        } else if str_eq(a, "-p") || str_eq(a, "--outlier_rate") {
            if !has_value {
                return Err(CliError::MissingOutlierRateValue);
            }
            if !float_ok[i + 1] {
                return Err(CliError::BadOutlierRate);
            }
            p = Some(args[i + 1].clone());
            i = i + 2;
        } else if str_eq(a, "--pass_ratio") {
            if !has_value {
                return Err(CliError::MissingPassRatioValue);
            }
            if !float_ok[i + 1] {
                return Err(CliError::BadPassRatio);
            }
            pass_ratio = Some(args[i + 1].clone());
            i = i + 2;
        } else if str_eq(a, "--timeout") {
            if !has_value {
                return Err(CliError::MissingTimeoutValue);
            }
            match parse_u64(args[i + 1].as_str()) {
                None => {
                    return Err(CliError::BadTimeout);
                },
                Some(t) => {
                    timeout = Some(t);
                },
            }
            i = i + 2;
        } else if str_eq(a, "--test") {
            if !has_value {
                return Err(CliError::MissingTestValue);
            }
            test_cmd = Some(args[i + 1].clone());
            i = i + 2;
        } else if str_eq(a, "--src-json") {
            if !has_value {
                return Err(CliError::MissingJsonValue);
            }
            data_source = Some(SourceSpec::JsonFile(args[i + 1].clone()));
            i = i + 2;
        } else if str_eq(a, "--src-cmd") {
            if !has_value {
                return Err(CliError::MissingCommandValue);
            }
            data_source = Some(SourceSpec::Command(args[i + 1].clone()));
            i = i + 2;
        } else if str_eq(a, "--help") {
            return Ok(CliCommand::Help);
        } else {
            return Err(CliError::UnknownArgument);
        }
    }
    match (q, p, data_source, test_cmd) {
        (None, _, _, _) => Err(CliError::MissingConfidence),
        (Some(_), None, _, _) => Err(CliError::MissingOutlierRate),
        (Some(_), Some(_), None, _) => Err(CliError::MissingDataSource),
        (Some(_), Some(_), Some(_), None) => Err(CliError::MissingTestCommand),
        (Some(q), Some(p), Some(data_source), Some(test_cmd)) => Ok(
            CliCommand::Run(CliArgs { q, p, pass_ratio, timeout, data_source, test_cmd }),
        ),
    }
}

} // verus!
