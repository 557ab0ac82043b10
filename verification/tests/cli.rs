use boast::cli::{parse_cli_args, CliCommand, CliError, SourceSpec};

fn parse(args: &[&str]) -> Result<CliCommand, CliError> {
    let args: Vec<String> = args.iter().map(|s| s.to_string()).collect();
    let ok: Vec<bool> = args.iter().map(|s| s.parse::<f64>().is_ok()).collect();
    parse_cli_args(&args, &ok)
}

#[test]
fn full_command_line() {
    let r = parse(&["-q", "0.95", "-p", "1e-4", "--pass_ratio", "0.9", "--timeout", "60", "--test", "python t.py", "--src-json", "d.json"]);
    match r {
        Ok(CliCommand::Run(a)) => {
            assert_eq!(a.q, "0.95");
            assert_eq!(a.p, "1e-4");
            assert_eq!(a.pass_ratio.as_deref(), Some("0.9"));
            assert_eq!(a.timeout, Some(60));
            assert_eq!(a.test_cmd, "python t.py");
            assert!(matches!(a.data_source, SourceSpec::JsonFile(ref p) if p == "d.json"));
        }
        _ => panic!("expected a run"),
    }
}

#[test]
fn long_option_names_and_last_source_wins() {
    let r = parse(&["--confidence", "0.9", "--outlier_rate", "0.001", "--src-json", "a", "--src-cmd", "gen", "--test", "t"]);
    match r {
        Ok(CliCommand::Run(a)) => {
            assert_eq!(a.pass_ratio, None);
            assert_eq!(a.timeout, None);
            assert!(matches!(a.data_source, SourceSpec::Command(ref c) if c == "gen"));
        }
        _ => panic!("expected a run"),
    }
}

#[test]
fn help_is_answered_at_once() {
    assert!(matches!(parse(&["--help", "--bogus"]), Ok(CliCommand::Help)));
    assert!(matches!(parse(&["--bogus", "--help"]), Err(CliError::UnknownArgument)));
}

#[test]
fn each_refusal_and_its_message() {
    let cases: Vec<(Vec<&str>, CliError, &str)> = vec![
        (vec!["-q"], CliError::MissingConfidenceValue, "Missing value for confidence"),
        (vec!["-q", "x", "--bogus"], CliError::BadConfidence, "confidence should be a float from 0.0 to 1.0"),
        (vec!["-p"], CliError::MissingOutlierRateValue, "Missing value for outlier_rate"),
        (vec!["--outlier_rate", "?"], CliError::BadOutlierRate, "outlier_rate should be a float from 0.0 to 1.0"),
        (vec!["--pass_ratio"], CliError::MissingPassRatioValue, "Missing value for pass_ratio"),
        (vec!["--pass_ratio", "a"], CliError::BadPassRatio, "pass_ratio should be a float from 0.0 to 1.0"),
        (vec!["--timeout"], CliError::MissingTimeoutValue, "Missing value for timeout"),
        (vec!["--timeout", "1.5"], CliError::BadTimeout, "timeout should be an integer representing seconds"),
        (vec!["--test"], CliError::MissingTestValue, "Missing value for test command"),
        (vec!["--src-json"], CliError::MissingJsonValue, "Missing value for JSON data source"),
        (vec!["--src-cmd"], CliError::MissingCommandValue, "Missing value for command data source"),
        (vec!["-x"], CliError::UnknownArgument, "Unknown argument"),
        (vec![], CliError::MissingConfidence, "Missing required argument: confidence (or q)"),
        (vec!["-q", "1"], CliError::MissingOutlierRate, "Missing required argument: outlier_rate (or p)"),
        (vec!["-q", "1", "-p", "0"], CliError::MissingDataSource, "Missing required argument: data source (--src-json or --src-cmd)"),
        (vec!["-q", "1", "-p", "0", "--src-cmd", "c"], CliError::MissingTestCommand, "Missing required argument: test command (--test)"),
    ];
    for (args, err, text) in cases {
        match parse(&args) {
            Err(e) => {
                assert_eq!(e, err, "for {args:?}");
                assert_eq!(e.message(), text);
            }
            Ok(_) => panic!("expected a refusal for {args:?}"),
        }
    }
}
