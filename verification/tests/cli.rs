use rbspy::{Field, Opt, OutputFormat, ParseError, Record, Report, Snapshot, Target};

fn toks(xs: &[&str]) -> Vec<String> {
    xs.iter().map(|s| s.to_string()).collect()
}

#[test]
fn cli() {
    assert_eq!(
        Ok(Opt::Snapshot(Snapshot { pid: 5 })),
        Opt::parse_from(&toks(&["rbspy", "snapshot", "--pid", "5"]))
    );
    assert_eq!(
        Ok(Opt::Snapshot(Snapshot { pid: 5 })),
        Opt::parse_from(&toks(&["rbspy", "snapshot", "-p", "5"]))
    );
}

#[test]
fn snapshot_short_and_long_pid_agree() {
    let short = Opt::parse_from(&toks(&["rbspy", "snapshot", "-p", "41"]));
    let long = Opt::parse_from(&toks(&["rbspy", "snapshot", "--pid", "41"]));
    assert_eq!(short, long);
    assert_eq!(Ok(Opt::Snapshot(Snapshot { pid: 41 })), short);
}

#[test]
fn parse_twice_is_stable() {
    let tokens = toks(&[
        "rbspy",
        "record",
        "-p",
        "7",
        "out.svg",
        "raw.txt",
        "30",
        "-r",
        "100",
        "--format",
        "flamegraph",
    ]);
    let first = Opt::parse_from(&tokens);
    let second = Opt::parse_from(&tokens);
    assert_eq!(first, second);
}

#[test]
fn record_full_pid_form() {
    let tokens = toks(&[
        "rbspy",
        "record",
        "-p",
        "7",
        "--pid",
        "8",
        "out.svg",
        "raw.txt",
        "30",
        "-r",
        "99",
        "--format",
        "speedscope",
        "--no-drop-sudo",
        "-s",
        "--silent",
    ]);
    assert_eq!(
        Ok(Opt::Record(Record {
            target: Target::Pid { pid: vec![7, 8] },
            out_path: "out.svg".to_string(),
            raw_path: "raw.txt".to_string(),
            sample_rate: 99,
            maybe_duration: Some(30),
            format: OutputFormat::Speedscope,
            no_drop_root: true,
            with_subprocesses: true,
            silent: true,
        })),
        Opt::parse_from(&tokens)
    );
}

#[test]
fn record_subprocess_form_with_args_and_duration() {
    let tokens = toks(&[
        "rbspy",
        "record",
        "ruby",
        "script.rb",
        "out.svg",
        "raw.txt",
        "30",
        "-r",
        "50",
        "--format",
        "summary",
    ]);
    assert_eq!(
        Ok(Opt::Record(Record {
            target: Target::Subprocess {
                prog: "ruby".to_string(),
                args: vec!["script.rb".to_string()],
            },
            out_path: "out.svg".to_string(),
            raw_path: "raw.txt".to_string(),
            sample_rate: 50,
            maybe_duration: Some(30),
            format: OutputFormat::Summary,
            no_drop_root: false,
            with_subprocesses: false,
            silent: false,
        })),
        Opt::parse_from(&tokens)
    );
}

#[test]
fn record_subprocess_form_without_duration() {
    let tokens = toks(&[
        "rbspy",
        "record",
        "ruby",
        "out.svg",
        "raw.txt",
        "-r",
        "50",
        "--format",
        "summary_by_line",
    ]);
    assert_eq!(
        Ok(Opt::Record(Record {
            target: Target::Subprocess { prog: "ruby".to_string(), args: vec![] },
            out_path: "out.svg".to_string(),
            raw_path: "raw.txt".to_string(),
            sample_rate: 50,
            maybe_duration: None,
            format: OutputFormat::SummaryByLine,
            no_drop_root: false,
            with_subprocesses: false,
            silent: false,
        })),
        Opt::parse_from(&tokens)
    );
}

#[test]
fn record_malformed_duration() {
    let tokens = toks(&[
        "rbspy",
        "record",
        "-p",
        "7",
        "out.svg",
        "raw.txt",
        "soon",
        "-r",
        "100",
        "--format",
        "flamegraph",
    ]);
    assert_eq!(
        Err(ParseError::MalformedDuration("soon".to_string())),
        Opt::parse_from(&tokens)
    );
}

#[test]
fn format_tokens_round_trip() {
    let cases = [
        ("flamegraph", OutputFormat::Flamegraph),
        ("callgrind", OutputFormat::Callgrind),
        ("speedscope", OutputFormat::Speedscope),
        ("summary", OutputFormat::Summary),
        ("summary_by_line", OutputFormat::SummaryByLine),
    ];
    for (tok, fmt) in cases {
        assert_eq!(Ok(fmt), OutputFormat::from_str(tok));
        assert_eq!(tok, fmt.token());
    }
    assert_eq!(
        Err(ParseError::UnknownFormat("json".to_string())),
        OutputFormat::from_str("json")
    );
}

#[test]
fn record_unknown_format() {
    let tokens = toks(&["rbspy", "record", "--format", "json"]);
    assert_eq!(
        Err(ParseError::UnknownFormat("json".to_string())),
        Opt::parse_from(&tokens)
    );
}

#[test]
fn record_missing_target() {
    let tokens = toks(&["rbspy", "record", "-r", "100", "--format", "flamegraph"]);
    assert_eq!(
        Err(ParseError::MissingField(Field::Target)),
        Opt::parse_from(&tokens)
    );
}

#[test]
fn record_both_target_forms_conflict() {
    let tokens = toks(&[
        "rbspy",
        "record",
        "-p",
        "7",
        "ruby",
        "out.svg",
        "raw.txt",
        "30",
        "-r",
        "100",
        "--format",
        "flamegraph",
    ]);
    assert_eq!(Err(ParseError::ConflictingTarget), Opt::parse_from(&tokens));
}

#[test]
fn record_missing_rate() {
    let tokens = toks(&[
        "rbspy",
        "record",
        "-p",
        "7",
        "out.svg",
        "raw.txt",
        "30",
        "--format",
        "flamegraph",
    ]);
    assert_eq!(
        Err(ParseError::MissingField(Field::Rate)),
        Opt::parse_from(&tokens)
    );
}

#[test]
fn record_missing_paths() {
    assert_eq!(
        Err(ParseError::MissingField(Field::OutPath)),
        Opt::parse_from(&toks(&["rbspy", "record", "-p", "7", "-r", "50", "--format", "summary"]))
    );
    assert_eq!(
        Err(ParseError::MissingField(Field::RawPath)),
        Opt::parse_from(&toks(&[
            "rbspy", "record", "-p", "7", "out.svg", "-r", "50", "--format", "summary",
        ]))
    );
}

#[test]
fn record_missing_format() {
    let tokens = toks(&["rbspy", "record", "-p", "7", "out.svg", "raw.txt", "-r", "50"]);
    assert_eq!(
        Err(ParseError::MissingField(Field::Format)),
        Opt::parse_from(&tokens)
    );
}

#[test]
fn report_success() {
    let tokens = toks(&[
        "rbspy",
        "report",
        "--format",
        "callgrind",
        "--input",
        "raw.txt",
        "--output",
        "out.txt",
    ]);
    assert_eq!(
        Ok(Opt::Report(Report {
            format: OutputFormat::Callgrind,
            input: "raw.txt".to_string(),
            output: "out.txt".to_string(),
        })),
        Opt::parse_from(&tokens)
    );
}

#[test]
fn report_missing_each_field() {
    assert_eq!(
        Err(ParseError::MissingField(Field::Format)),
        Opt::parse_from(&toks(&[
            "rbspy", "report", "--input", "raw.txt", "--output", "out.txt",
        ]))
    );
    assert_eq!(
        Err(ParseError::MissingField(Field::Input)),
        Opt::parse_from(&toks(&[
            "rbspy", "report", "--format", "summary", "--output", "out.txt",
        ]))
    );
    assert_eq!(
        Err(ParseError::MissingField(Field::Output)),
        Opt::parse_from(&toks(&[
            "rbspy", "report", "--format", "summary", "--input", "raw.txt",
        ]))
    );
}

#[test]
fn report_duplicate_format() {
    let tokens = toks(&["rbspy", "report", "--format", "summary", "--format", "callgrind"]);
    assert_eq!(
        Err(ParseError::DuplicateField(Field::Format)),
        Opt::parse_from(&tokens)
    );
}

#[test]
fn snapshot_pid_errors() {
    assert_eq!(
        Err(ParseError::MalformedPid("abc".to_string())),
        Opt::parse_from(&toks(&["rbspy", "snapshot", "-p", "abc"]))
    );
    assert_eq!(
        Err(ParseError::MalformedPid("0".to_string())),
        Opt::parse_from(&toks(&["rbspy", "snapshot", "-p", "0"]))
    );
    assert_eq!(
        Err(ParseError::MalformedPid("2147483648".to_string())),
        Opt::parse_from(&toks(&["rbspy", "snapshot", "-p", "2147483648"]))
    );
    assert_eq!(
        Err(ParseError::MissingValue(Field::Pid)),
        Opt::parse_from(&toks(&["rbspy", "snapshot", "-p"]))
    );
    assert_eq!(
        Err(ParseError::DuplicateField(Field::Pid)),
        Opt::parse_from(&toks(&["rbspy", "snapshot", "-p", "5", "--pid", "6"]))
    );
}

#[test]
fn record_malformed_rate() {
    assert_eq!(
        Err(ParseError::MalformedRate("0".to_string())),
        Opt::parse_from(&toks(&["rbspy", "record", "-r", "0"]))
    );
    assert_eq!(
        Err(ParseError::DuplicateField(Field::Rate)),
        Opt::parse_from(&toks(&["rbspy", "record", "-r", "50", "--rate", "60"]))
    );
}

#[test]
fn selector_errors() {
    assert_eq!(
        Err(ParseError::UnknownCommand("fly".to_string())),
        Opt::parse_from(&toks(&["rbspy", "fly"]))
    );
    assert_eq!(Err(ParseError::MissingCommand), Opt::parse_from(&toks(&["rbspy"])));
    assert_eq!(Err(ParseError::MissingCommand), Opt::parse_from(&toks(&[])));
}

#[test]
fn unexpected_arguments() {
    assert_eq!(
        Err(ParseError::UnexpectedArgument("5".to_string())),
        Opt::parse_from(&toks(&["rbspy", "snapshot", "5"]))
    );
    assert_eq!(
        Err(ParseError::UnexpectedArgument("-x".to_string())),
        Opt::parse_from(&toks(&["rbspy", "snapshot", "-x", "5"]))
    );
    assert_eq!(
        Err(ParseError::UnexpectedArgument("--silent".to_string())),
        Opt::parse_from(&toks(&["rbspy", "report", "--silent"]))
    );
}

#[test]
fn parse_duration_reads_whole_seconds() {
    assert_eq!(Ok(30), rbspy::parse_duration("30"));
    assert_eq!(Ok(0), rbspy::parse_duration("0"));
    assert_eq!(Ok(u64::MAX), rbspy::parse_duration("18446744073709551615"));
    assert_eq!(
        Err(ParseError::MalformedDuration("soon".to_string())),
        rbspy::parse_duration("soon")
    );
    assert_eq!(
        Err(ParseError::MalformedDuration("".to_string())),
        rbspy::parse_duration("")
    );
    assert_eq!(
        Err(ParseError::MalformedDuration("30s".to_string())),
        rbspy::parse_duration("30s")
    );
    assert_eq!(
        Err(ParseError::MalformedDuration("+30".to_string())),
        rbspy::parse_duration("+30")
    );
    assert_eq!(
        Err(ParseError::MalformedDuration("18446744073709551616".to_string())),
        rbspy::parse_duration("18446744073709551616")
    );
}
