//! The mathematical model of the command line: ghost images of the
//! command values and a functional specification of parsing, stated
//! over sequences of characters.
//!
//! Parsing is one left-to-right pass: `spec_scan` walks the tokens and
//! records flag values and positionals, failing at the first token-level
//! violation; the per-subcommand validators then check the collected
//! fields in their declared order and assemble the command.

use crate::cli::{BoolFlag, Field, Opt, OutputFormat, ParseError, Subcommand};
use crate::digits::{pid_of, rate_of, u64_of};
use vstd::prelude::*;

verus! {

/// Ghost image of `Target`.
#[verifier::ext_equal]
pub ghost enum TargetV {
    Pid { pid: Seq<i32> },
    Subprocess { prog: Seq<char>, args: Seq<Seq<char>> },
}

/// Ghost image of `Record`.
#[verifier::ext_equal]
pub ghost struct RecordV {
    pub target: TargetV,
    pub out_path: Seq<char>,
    pub raw_path: Seq<char>,
    pub sample_rate: u32,
    pub maybe_duration: Option<u64>,
    pub format: OutputFormat,
    pub no_drop_root: bool,
    pub with_subprocesses: bool,
    pub silent: bool,
}

/// Ghost image of `Snapshot`.
#[verifier::ext_equal]
pub ghost struct SnapshotV {
    pub pid: i32,
}

/// Ghost image of `Report`.
#[verifier::ext_equal]
pub ghost struct ReportV {
    pub format: OutputFormat,
    pub input: Seq<char>,
    pub output: Seq<char>,
}

/// Ghost image of `Opt`.
#[verifier::ext_equal]
pub ghost enum OptV {
    Snapshot(SnapshotV),
    Record(RecordV),
    Report(ReportV),
}

/// Ghost image of `ParseError`.
#[verifier::ext_equal]
pub ghost enum ParseErrorV {
    MissingCommand,
    UnknownCommand(Seq<char>),
    MissingField(Field),
    MissingValue(Field),
    DuplicateField(Field),
    MalformedPid(Seq<char>),
    MalformedRate(Seq<char>),
    MalformedDuration(Seq<char>),
    UnknownFormat(Seq<char>),
    ConflictingTarget,
    UnexpectedArgument(Seq<char>),
}

/// The fixed textual spelling of each output format.
pub open spec fn format_token(f: OutputFormat) -> Seq<char> {
    match f {
        OutputFormat::Flamegraph => "flamegraph"@,
        OutputFormat::Callgrind => "callgrind"@,
        OutputFormat::Speedscope => "speedscope"@,
        OutputFormat::Summary => "summary"@,
        OutputFormat::SummaryByLine => "summary_by_line"@,
    }
}

/// Which output format a token names, if any; any token outside the
/// fixed set names none.
pub open spec fn format_of(s: Seq<char>) -> Option<OutputFormat> {
    if s == "flamegraph"@ {
        Some(OutputFormat::Flamegraph)
    } else if s == "callgrind"@ {
        Some(OutputFormat::Callgrind)
    } else if s == "speedscope"@ {
        Some(OutputFormat::Speedscope)
    } else if s == "summary"@ {
        Some(OutputFormat::Summary)
    } else if s == "summary_by_line"@ {
        Some(OutputFormat::SummaryByLine)
    } else {
        None
    }
}

/// What one scanning pass has collected so far.
#[verifier::ext_equal]
pub ghost struct ScanV {
    pub pids: Seq<i32>,
    pub rate: Option<u32>,
    pub format: Option<OutputFormat>,
    pub input: Option<Seq<char>>,
    pub output: Option<Seq<char>>,
    pub no_drop_root: bool,
    pub with_subprocesses: bool,
    pub silent: bool,
    pub positionals: Seq<Seq<char>>,
}

/// The state a scan starts from: nothing collected, flags false.
pub open spec fn scan_init() -> ScanV {
    ScanV {
        pids: Seq::empty(),
        rate: None,
        format: None,
        input: None,
        output: None,
        no_drop_root: false,
        with_subprocesses: false,
        silent: false,
        positionals: Seq::empty(),
    }
}

/// A token that looks like a flag: it begins with `-`.
pub open spec fn is_flag_token(t: Seq<char>) -> bool {
    t.len() >= 1 && t[0] == '-'
}

/// The value-carrying flag a token names under the given subcommand.
pub open spec fn value_flag_of(cmd: Subcommand, t: Seq<char>) -> Option<Field> {
    if t == "-p"@ || t == "--pid"@ {
        if cmd is Report {
            None
        } else {
            Some(Field::Pid)
        }
    } else if t == "-r"@ || t == "--rate"@ {
        if cmd is Record {
            Some(Field::Rate)
        } else {
            None
        }
    } else if t == "--format"@ {
        if cmd is Snapshot {
            None
        } else {
            Some(Field::Format)
        }
    } else if t == "--input"@ {
        if cmd is Report {
            Some(Field::Input)
        } else {
            None
        }
    } else if t == "--output"@ {
        if cmd is Report {
            Some(Field::Output)
        } else {
            None
        }
    } else {
        None
    }
}

/// The boolean flag a token names under the given subcommand; only
/// `record` has boolean flags.
pub open spec fn bool_flag_of(cmd: Subcommand, t: Seq<char>) -> Option<BoolFlag> {
    if cmd is Record {
        if t == "--no-drop-sudo"@ {
            Some(BoolFlag::NoDropRoot)
        } else if t == "-s"@ || t == "--sub-processes"@ {
            Some(BoolFlag::WithSubprocesses)
        } else if t == "--silent"@ {
            Some(BoolFlag::Silent)
        } else {
            None
        }
    } else {
        None
    }
}

/// Setting a boolean flag; repeating one is idempotent.
pub open spec fn apply_bool_flag(st: ScanV, b: BoolFlag) -> ScanV {
    match b {
        BoolFlag::NoDropRoot => ScanV { no_drop_root: true, ..st },
        BoolFlag::WithSubprocesses => ScanV { with_subprocesses: true, ..st },
        BoolFlag::Silent => ScanV { silent: true, ..st },
    }
}

/// A value flag that may be given at most once was already given.
/// Only `record` may repeat `-p/--pid`.
pub open spec fn dup_of(cmd: Subcommand, f: Field, st: ScanV) -> bool {
    match f {
        Field::Pid => cmd is Snapshot && st.pids.len() > 0,
        Field::Rate => st.rate is Some,
        Field::Format => st.format is Some,
        Field::Input => st.input is Some,
        Field::Output => st.output is Some,
        _ => false,
    }
}

/// Store a value flag's value, or fail where the value does not parse.
pub open spec fn store_of(f: Field, v: Seq<char>, st: ScanV) -> Result<ScanV, ParseErrorV> {
    match f {
        Field::Pid => match pid_of(v) {
            None => Err(ParseErrorV::MalformedPid(v)),
            Some(p) => Ok(ScanV { pids: st.pids.push(p), ..st }),
        },
        Field::Rate => match rate_of(v) {
            None => Err(ParseErrorV::MalformedRate(v)),
            Some(r) => Ok(ScanV { rate: Some(r), ..st }),
        },
        Field::Format => match format_of(v) {
            None => Err(ParseErrorV::UnknownFormat(v)),
            Some(f2) => Ok(ScanV { format: Some(f2), ..st }),
        },
        Field::Input => Ok(ScanV { input: Some(v), ..st }),
        Field::Output => Ok(ScanV { output: Some(v), ..st }),
        _ => Ok(st),
    }
}

/// One left-to-right pass over the tokens from position `i`: flags are
/// recognized where they stand and their values parsed at once; any
/// other token is positional, and only `record` accepts positionals.
/// The first violation ends the pass.
pub open spec fn spec_scan(
    cmd: Subcommand,
    tokens: Seq<Seq<char>>,
    i: int,
    st: ScanV,
) -> Result<ScanV, ParseErrorV>
    decreases tokens.len() - i,
{
    if tokens.len() <= i {
        Ok(st)
    } else {
        let t = tokens[i];
        match value_flag_of(cmd, t) {
            Some(f) => {
                if dup_of(cmd, f, st) {
                    Err(ParseErrorV::DuplicateField(f))
                } else if tokens.len() <= i + 1 {
                    Err(ParseErrorV::MissingValue(f))
                } else {
                    match store_of(f, tokens[i + 1], st) {
                        Err(e) => Err(e),
                        Ok(st2) => spec_scan(cmd, tokens, i + 2, st2),
                    }
                }
            },
            None => match bool_flag_of(cmd, t) {
                Some(b) => spec_scan(cmd, tokens, i + 1, apply_bool_flag(st, b)),
                None => {
                    if is_flag_token(t) {
                        Err(ParseErrorV::UnexpectedArgument(t))
                    } else if cmd is Record {
                        spec_scan(cmd, tokens, i + 1, ScanV { positionals: st.positionals.push(t), ..st })
                    } else {
                        Err(ParseErrorV::UnexpectedArgument(t))
                    }
                },
            },
        }
    }
}

/// `snapshot` takes exactly one pid and nothing else.
pub open spec fn spec_validate_snapshot(st: ScanV) -> Result<OptV, ParseErrorV> {
    if st.pids.len() == 0 {
        Err(ParseErrorV::MissingField(Field::Pid))
    } else {
        Ok(OptV::Snapshot(SnapshotV { pid: st.pids[0] }))
    }
}

/// `report` requires all three of format, input and output.
pub open spec fn spec_validate_report(st: ScanV) -> Result<OptV, ParseErrorV> {
    match st.format {
        None => Err(ParseErrorV::MissingField(Field::Format)),
        Some(f) => match st.input {
            None => Err(ParseErrorV::MissingField(Field::Input)),
            Some(inp) => match st.output {
                None => Err(ParseErrorV::MissingField(Field::Output)),
                Some(out) => Ok(OptV::Report(ReportV { format: f, input: inp, output: out })),
            },
        },
    }
}

/// The tail of `record`'s positionals after the target-consuming tokens:
/// output path, raw-capture path, then an optional duration in seconds.
/// The remaining fields are checked in their declared order: paths,
/// then rate, then duration, then format.
pub open spec fn record_tail(
    target: TargetV,
    rate: Option<u32>,
    format: Option<OutputFormat>,
    no_drop_root: bool,
    with_subprocesses: bool,
    silent: bool,
    tail: Seq<Seq<char>>,
) -> Result<OptV, ParseErrorV> {
    if tail.len() < 1 {
        Err(ParseErrorV::MissingField(Field::OutPath))
    } else if tail.len() < 2 {
        Err(ParseErrorV::MissingField(Field::RawPath))
    } else {
        match rate {
            None => Err(ParseErrorV::MissingField(Field::Rate)),
            Some(r) => {
                if tail.len() >= 3 && u64_of(tail[2]) is None {
                    Err(ParseErrorV::MalformedDuration(tail[2]))
                } else {
                    match format {
                        None => Err(ParseErrorV::MissingField(Field::Format)),
                        Some(f) => Ok(
                            OptV::Record(
                                RecordV {
                                    target,
                                    out_path: tail[0],
                                    raw_path: tail[1],
                                    sample_rate: r,
                                    maybe_duration: if tail.len() >= 3 {
                                        u64_of(tail[2])
                                    } else {
                                        None
                                    },
                                    format: f,
                                    no_drop_root,
                                    with_subprocesses,
                                    silent,
                                },
                            ),
                        ),
                    }
                }
            },
        }
    }
}

/// `record` requires exactly one target form: an explicit pid list, or
/// a leading program name with its arguments; the trailing positionals
/// are the output path, the raw-capture path and an optional duration.
/// With a pid list, more than three positionals means both target forms
/// were given; without one, the first positional is the program and,
/// past three positionals, the middle ones are its arguments.
pub open spec fn spec_validate_record(st: ScanV) -> Result<OptV, ParseErrorV> {
    let m = st.positionals.len() as int;
    if st.pids.len() > 0 {
        if m > 3 {
            Err(ParseErrorV::ConflictingTarget)
        } else {
            record_tail(
                TargetV::Pid { pid: st.pids },
                st.rate,
                st.format,
                st.no_drop_root,
                st.with_subprocesses,
                st.silent,
                st.positionals,
            )
        }
    } else {
        if m == 0 {
            Err(ParseErrorV::MissingField(Field::Target))
        } else if m <= 3 {
            record_tail(
                TargetV::Subprocess { prog: st.positionals[0], args: Seq::empty() },
                st.rate,
                st.format,
                st.no_drop_root,
                st.with_subprocesses,
                st.silent,
                st.positionals.skip(1),
            )
        } else {
            record_tail(
                TargetV::Subprocess {
                    prog: st.positionals[0],
                    args: st.positionals.subrange(1, m - 3),
                },
                st.rate,
                st.format,
                st.no_drop_root,
                st.with_subprocesses,
                st.silent,
                st.positionals.subrange(m - 3, m),
            )
        }
    }
}

/// What parsing a full token sequence yields. The leading token is the
/// invoking program's own name and is ignored; the next token selects
/// the subcommand.
pub open spec fn spec_parse(tokens: Seq<Seq<char>>) -> Result<OptV, ParseErrorV> {
    if tokens.len() < 2 {
        Err(ParseErrorV::MissingCommand)
    } else if tokens[1] == "snapshot"@ {
        match spec_scan(Subcommand::Snapshot, tokens, 2, scan_init()) {
            Err(e) => Err(e),
            Ok(st) => spec_validate_snapshot(st),
        }
    } else if tokens[1] == "record"@ {
        match spec_scan(Subcommand::Record, tokens, 2, scan_init()) {
            Err(e) => Err(e),
            Ok(st) => spec_validate_record(st),
        }
    } else if tokens[1] == "report"@ {
        match spec_scan(Subcommand::Report, tokens, 2, scan_init()) {
            Err(e) => Err(e),
            Ok(st) => spec_validate_report(st),
        }
    } else {
        Err(ParseErrorV::UnknownCommand(tokens[1]))
    }
}

/// A parse result seen at the model level.
pub open spec fn result_view(r: Result<Opt, ParseError>) -> Result<OptV, ParseErrorV> {
    match r {
        Ok(o) => Ok(o.deep_view()),
        Err(e) => Err(e.deep_view()),
    }
}

} // verus!
