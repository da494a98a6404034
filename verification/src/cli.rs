//! The command schema and parser: typed command values, the
//! parse-failure taxonomy, and the parser from raw argument tokens to a
//! validated command, proved equal to the model's `spec_parse`.

use crate::digits::{parse_pid_token, parse_rate_token, parse_u64_token};
use crate::model::{
    bool_flag_of, dup_of, format_of, format_token, is_flag_token, record_tail, result_view,
    scan_init, spec_parse, spec_scan, spec_validate_record, spec_validate_report,
    spec_validate_snapshot, store_of, value_flag_of, OptV, ParseErrorV, RecordV, ReportV, ScanV,
    SnapshotV, TargetV,
};
use vstd::prelude::*;

verus! {

/// The subcommand a selector token picked.
#[derive(Clone, Copy, Debug, Eq, PartialEq, Structural)]
pub enum Subcommand {
    Snapshot,
    Record,
    Report,
}

/// The fields a parse failure can name.
#[derive(Clone, Copy, Debug, Eq, Hash, PartialEq, Structural)]
pub enum Field {
    Pid,
    Rate,
    Format,
    Input,
    Output,
    OutPath,
    RawPath,
    Target,
}

/// The three independent boolean flags of `record`.
#[derive(Clone, Copy, Debug, Eq, PartialEq, Structural)]
pub enum BoolFlag {
    NoDropRoot,
    WithSubprocesses,
    Silent,
}

/// How rendered profiling output is to be formatted.
#[derive(Clone, Copy, Debug, Eq, Hash, Ord, PartialEq, PartialOrd, Structural)]
pub enum OutputFormat {
    Flamegraph,
    Callgrind,
    Speedscope,
    Summary,
    SummaryByLine,
}

/// What `record` profiles: processes already running, named by pid, or
/// a program to spawn, with its arguments. Exactly one form is chosen.
#[derive(Clone, Debug, Eq, Hash, Ord, PartialEq, PartialOrd)]
pub enum Target {
    Pid { pid: Vec<i32> },
    Subprocess { prog: String, args: Vec<String> },
}

/// Parameters of a continuous recording session.
#[derive(Clone, Debug, Eq, Hash, Ord, PartialEq, PartialOrd)]
pub struct Record {
    pub target: Target,
    pub out_path: String,
    pub raw_path: String,
    pub sample_rate: u32,
    /// Seconds to record; absent means until exit or interrupt.
    pub maybe_duration: Option<u64>,
    pub format: OutputFormat,
    pub no_drop_root: bool,
    pub with_subprocesses: bool,
    pub silent: bool,
}

/// Parameters of a single immediate stack capture.
#[derive(Clone, Debug, Eq, Hash, Ord, PartialEq, PartialOrd)]
pub struct Snapshot {
    pub pid: i32,
}

/// Parameters of post-processing a raw capture file.
#[derive(Clone, Debug, Eq, Hash, Ord, PartialEq, PartialOrd)]
pub struct Report {
    pub format: OutputFormat,
    pub input: String,
    pub output: String,
}

/// One validated invocation: exactly one of the three operations.
#[derive(Clone, Debug, Eq, Hash, Ord, PartialEq, PartialOrd)]
pub enum Opt {
    Snapshot(Snapshot),
    Record(Record),
    Report(Report),
}

/// Why a token sequence was rejected: an unrecognized selector, a
/// required field absent, a value that fails its field's parser, or
/// conflicting target forms. Malformed-value failures carry the
/// offending token.
#[derive(Clone, Debug, Eq, Hash, PartialEq)]
pub enum ParseError {
    MissingCommand,
    UnknownCommand(String),
    MissingField(Field),
    MissingValue(Field),
    DuplicateField(Field),
    MalformedPid(String),
    MalformedRate(String),
    MalformedDuration(String),
    UnknownFormat(String),
    ConflictingTarget,
    UnexpectedArgument(String),
}

impl DeepView for Target {
    type V = TargetV;

    open spec fn deep_view(&self) -> TargetV {
        match self {
            Target::Pid { pid } => TargetV::Pid { pid: pid@ },
            Target::Subprocess { prog, args } => TargetV::Subprocess {
                prog: prog@,
                args: args.deep_view(),
            },
        }
    }
}

impl DeepView for Record {
    type V = RecordV;

    open spec fn deep_view(&self) -> RecordV {
        RecordV {
            target: self.target.deep_view(),
            out_path: self.out_path@,
            raw_path: self.raw_path@,
            sample_rate: self.sample_rate,
            maybe_duration: self.maybe_duration,
            format: self.format,
            no_drop_root: self.no_drop_root,
            with_subprocesses: self.with_subprocesses,
            silent: self.silent,
        }
    }
}

impl DeepView for Snapshot {
    type V = SnapshotV;

    open spec fn deep_view(&self) -> SnapshotV {
        SnapshotV { pid: self.pid }
    }
}

impl DeepView for Report {
    type V = ReportV;

    open spec fn deep_view(&self) -> ReportV {
        ReportV { format: self.format, input: self.input@, output: self.output@ }
    }
}

impl DeepView for Opt {
    type V = OptV;

    open spec fn deep_view(&self) -> OptV {
        match self {
            Opt::Snapshot(s) => OptV::Snapshot(s.deep_view()),
            Opt::Record(r) => OptV::Record(r.deep_view()),
            Opt::Report(r) => OptV::Report(r.deep_view()),
        }
    }
}

impl DeepView for ParseError {
    type V = ParseErrorV;

    open spec fn deep_view(&self) -> ParseErrorV {
        match self {
            ParseError::MissingCommand => ParseErrorV::MissingCommand,
            ParseError::UnknownCommand(t) => ParseErrorV::UnknownCommand(t@),
            ParseError::MissingField(f) => ParseErrorV::MissingField(*f),
            ParseError::MissingValue(f) => ParseErrorV::MissingValue(*f),
            ParseError::DuplicateField(f) => ParseErrorV::DuplicateField(*f),
            ParseError::MalformedPid(t) => ParseErrorV::MalformedPid(t@),
            ParseError::MalformedRate(t) => ParseErrorV::MalformedRate(t@),
            ParseError::MalformedDuration(t) => ParseErrorV::MalformedDuration(t@),
            ParseError::UnknownFormat(t) => ParseErrorV::UnknownFormat(t@),
            ParseError::ConflictingTarget => ParseErrorV::ConflictingTarget,
            ParseError::UnexpectedArgument(t) => ParseErrorV::UnexpectedArgument(t@),
        }
    }
}

/// Character-for-character equality of two string slices.
fn str_eq(a: &str, b: &str) -> (r: bool)
    ensures
        r == (a@ == b@),
{
    let x = a.to_owned();
    let y = b.to_owned();
    x == y
}

/// A token equals a fixed spelling.
fn tok_eq(t: &String, lit: &str) -> (r: bool)
    ensures
        r == (t@ == lit@),
{
    str_eq(t.as_str(), lit)
}

/// A token looks like a flag: it begins with `-`.
fn is_flag_like(t: &String) -> (r: bool)
    ensures
        r == is_flag_token(t@),
{
    if t.as_str().is_empty() {
        false
    } else {
        t.as_str().get_char(0) == '-'
    }
}

impl OutputFormat {
    /// Read a format token from the fixed set of spellings.
    pub fn from_str(format: &str) -> (r: Result<OutputFormat, ParseError>)
        ensures
            match r {
                Ok(f) => format_of(format@) == Some(f),
                Err(e) => format_of(format@) is None && e.deep_view()
                    == ParseErrorV::UnknownFormat(format@),
            },
    {
        if str_eq(format, "flamegraph") {
            Ok(OutputFormat::Flamegraph)
        } else if str_eq(format, "callgrind") {
            Ok(OutputFormat::Callgrind)
        } else if str_eq(format, "speedscope") {
            Ok(OutputFormat::Speedscope)
        } else if str_eq(format, "summary") {
            Ok(OutputFormat::Summary)
        } else if str_eq(format, "summary_by_line") {
            Ok(OutputFormat::SummaryByLine)
        } else {
            Err(ParseError::UnknownFormat(format.to_owned()))
        }
    }

    /// The fixed spelling of this format.
    pub fn token(&self) -> (r: &'static str)
        ensures
            r@ == format_token(*self),
    {
        match self {
            OutputFormat::Flamegraph => "flamegraph",
            OutputFormat::Callgrind => "callgrind",
            OutputFormat::Speedscope => "speedscope",
            OutputFormat::Summary => "summary",
            OutputFormat::SummaryByLine => "summary_by_line",
        }
    }
}

/// Read a duration token as a whole number of seconds: base-10 digits
/// only, no sign and no unit suffix; any other content, and overflow,
/// is a malformed-duration failure naming the token.
pub fn parse_duration(value: &str) -> (r: Result<u64, ParseError>)
    ensures
        match r {
            Ok(n) => crate::digits::u64_of(value@) == Some(n),
            Err(e) => crate::digits::u64_of(value@) is None && e.deep_view()
                == ParseErrorV::MalformedDuration(value@),
        },
{
    match parse_u64_token(value) {
        Some(n) => Ok(n),
        None => Err(ParseError::MalformedDuration(value.to_owned())),
    }
}

/// What one scanning pass has collected so far.
struct Scan {
    pids: Vec<i32>,
    rate: Option<u32>,
    format: Option<OutputFormat>,
    input: Option<String>,
    output: Option<String>,
    no_drop_root: bool,
    with_subprocesses: bool,
    silent: bool,
    positionals: Vec<String>,
}

impl DeepView for Scan {
    type V = ScanV;

    closed spec fn deep_view(&self) -> ScanV {
        ScanV {
            pids: self.pids@,
            rate: self.rate,
            format: self.format,
            input: self.input.deep_view(),
            output: self.output.deep_view(),
            no_drop_root: self.no_drop_root,
            with_subprocesses: self.with_subprocesses,
            silent: self.silent,
            positionals: self.positionals.deep_view(),
        }
    }
}

/// The value-carrying flag a token names under the given subcommand.
fn value_flag_lookup(cmd: Subcommand, t: &String) -> (r: Option<Field>)
    ensures
        r == value_flag_of(cmd, t@),
{
    if tok_eq(t, "-p") || tok_eq(t, "--pid") {
        match cmd {
            Subcommand::Report => None,
            _ => Some(Field::Pid),
        }
    } else if tok_eq(t, "-r") || tok_eq(t, "--rate") {
        match cmd {
            Subcommand::Record => Some(Field::Rate),
            _ => None,
        }
    } else if tok_eq(t, "--format") {
        match cmd {
            Subcommand::Snapshot => None,
            _ => Some(Field::Format),
        }
    } else if tok_eq(t, "--input") {
        match cmd {
            Subcommand::Report => Some(Field::Input),
            _ => None,
        }
    } else if tok_eq(t, "--output") {
        match cmd {
            Subcommand::Report => Some(Field::Output),
            _ => None,
        }
    } else {
        None
    }
}

/// The boolean flag a token names under the given subcommand.
fn bool_flag_lookup(cmd: Subcommand, t: &String) -> (r: Option<BoolFlag>)
    ensures
        r == bool_flag_of(cmd, t@),
{
    match cmd {
        Subcommand::Record => {
            if tok_eq(t, "--no-drop-sudo") {
                Some(BoolFlag::NoDropRoot)
            } else if tok_eq(t, "-s") || tok_eq(t, "--sub-processes") {
                Some(BoolFlag::WithSubprocesses)
            } else if tok_eq(t, "--silent") {
                Some(BoolFlag::Silent)
            } else {
                None
            }
        },
        _ => None,
    }
}

/// The value flag was already given where only one occurrence is allowed.
fn is_duplicate(cmd: Subcommand, f: Field, st: &Scan) -> (r: bool)
    ensures
        r == dup_of(cmd, f, st.deep_view()),
{
    match f {
        Field::Pid => matches!(cmd, Subcommand::Snapshot) && st.pids.len() > 0,
        Field::Rate => st.rate.is_some(),
        Field::Format => st.format.is_some(),
        Field::Input => st.input.is_some(),
        Field::Output => st.output.is_some(),
        _ => false,
    }
}

/// Store a value flag's value, or fail where the value does not parse.
fn store_value_flag(f: Field, v: &String, st: &mut Scan) -> (r: Result<(), ParseError>)
    ensures
        match r {
            Ok(_) => store_of(f, v@, old(st).deep_view()) == Ok::<ScanV, ParseErrorV>(
                final(st).deep_view(),
            ),
            Err(e) => store_of(f, v@, old(st).deep_view()) == Err::<ScanV, ParseErrorV>(
                e.deep_view(),
            ),
        },
{
    match f {
        Field::Pid => match parse_pid_token(v.as_str()) {
            None => Err(ParseError::MalformedPid(v.clone())),
            Some(p) => {
                st.pids.push(p);
                Ok(())
            },
        },
        Field::Rate => match parse_rate_token(v.as_str()) {
            None => Err(ParseError::MalformedRate(v.clone())),
            Some(r) => {
                st.rate = Some(r);
                Ok(())
            },
        },
        Field::Format => match OutputFormat::from_str(v.as_str()) {
            Err(e) => Err(e),
            Ok(fm) => {
                st.format = Some(fm);
                Ok(())
            },
        },
        Field::Input => {
            st.input = Some(v.clone());
            Ok(())
        },
        Field::Output => {
            st.output = Some(v.clone());
            Ok(())
        },
        _ => Ok(()),
    }
}

/// Scan the tokens from `start`, collecting flag values and positionals
/// exactly as `spec_scan` says.
fn scan_tokens(cmd: Subcommand, tokens: &Vec<String>, start: usize) -> (r: Result<
    Scan,
    ParseError,
>)
    requires
        start <= tokens@.len(),
    ensures
        match r {
            Ok(st) => spec_scan(cmd, tokens.deep_view(), start as int, scan_init())
                == Ok::<ScanV, ParseErrorV>(st.deep_view()),
            Err(e) => spec_scan(cmd, tokens.deep_view(), start as int, scan_init())
                == Err::<ScanV, ParseErrorV>(e.deep_view()),
        },
{
    let ghost t_all = tokens.deep_view();
    let mut st = Scan {
        pids: Vec::new(),
        rate: None,
        format: None,
        input: None,
        output: None,
        no_drop_root: false,
        with_subprocesses: false,
        silent: false,
        positionals: Vec::new(),
    };
    proof {
        assert(st.deep_view() =~= scan_init());
    }
    let mut i: usize = start;
    while i < tokens.len()
        invariant
            start <= i <= tokens@.len(),
            t_all == tokens.deep_view(),
            spec_scan(cmd, t_all, start as int, scan_init()) == spec_scan(
                cmd,
                t_all,
                i as int,
                st.deep_view(),
            ),
        decreases tokens@.len() - i,
    {
        let ghost st0 = st.deep_view();
        let t = &tokens[i];
        proof {
            assert(t_all[i as int] == t@);
        }
        match value_flag_lookup(cmd, t) {
            Some(f) => {
                if is_duplicate(cmd, f, &st) {
                    return Err(ParseError::DuplicateField(f));
                }
                if i + 1 >= tokens.len() {
                    return Err(ParseError::MissingValue(f));
                }
                let v = &tokens[i + 1];
                proof {
                    assert(t_all[i as int + 1] == v@);
                }
                match store_value_flag(f, v, &mut st) {
                    Err(e) => {
                        return Err(e);
                    },
                    Ok(_) => {
                        proof {
                            assert(spec_scan(cmd, t_all, i as int, st0) == spec_scan(
                                cmd,
                                t_all,
                                i as int + 2,
                                st.deep_view(),
                            ));
                        }
                        i = i + 2;
                    },
                }
            },
            None => match bool_flag_lookup(cmd, t) {
                Some(b) => {
                    match b {
                        BoolFlag::NoDropRoot => st.no_drop_root = true,
                        BoolFlag::WithSubprocesses => st.with_subprocesses = true,
                        BoolFlag::Silent => st.silent = true,
                    }
                    proof {
                        assert(spec_scan(cmd, t_all, i as int, st0) == spec_scan(
                            cmd,
                            t_all,
                            i as int + 1,
                            st.deep_view(),
                        ));
                    }
                    i = i + 1;
                },
                None => {
                    if is_flag_like(t) {
                        return Err(ParseError::UnexpectedArgument(t.clone()));
                    }
                    match cmd {
                        Subcommand::Record => {
                            st.positionals.push(t.clone());
                            proof {
                                assert(st.deep_view() =~= ScanV {
                                    positionals: st0.positionals.push(t@),
                                    ..st0
                                });
                                assert(spec_scan(cmd, t_all, i as int, st0) == spec_scan(
                                    cmd,
                                    t_all,
                                    i as int + 1,
                                    st.deep_view(),
                                ));
                            }
                            i = i + 1;
                        },
                        _ => {
                            return Err(ParseError::UnexpectedArgument(t.clone()));
                        },
                    }
                },
            },
        }
    }
    Ok(st)
}

/// Check the collected `snapshot` fields.
fn validate_snapshot(st: Scan) -> (r: Result<Opt, ParseError>)
    ensures
        result_view(r) == spec_validate_snapshot(st.deep_view()),
{
    if st.pids.len() == 0 {
        Err(ParseError::MissingField(Field::Pid))
    } else {
        Ok(Opt::Snapshot(Snapshot { pid: st.pids[0] }))
    }
}

/// Check the collected `report` fields in declared order.
fn validate_report(st: Scan) -> (r: Result<Opt, ParseError>)
    ensures
        result_view(r) == spec_validate_report(st.deep_view()),
{
    let Scan { format, input, output, .. } = st;
    match format {
        None => Err(ParseError::MissingField(Field::Format)),
        Some(f) => match input {
            None => Err(ParseError::MissingField(Field::Input)),
            Some(inp) => match output {
                None => Err(ParseError::MissingField(Field::Output)),
                Some(out) => Ok(Opt::Report(Report { format: f, input: inp, output: out })),
            },
        },
    }
}

/// Check the trailing `record` positionals from `a` on — output path,
/// raw-capture path, optional duration — and assemble the command.
fn build_record(
    target: Target,
    rate: Option<u32>,
    format: Option<OutputFormat>,
    no_drop_root: bool,
    with_subprocesses: bool,
    silent: bool,
    positionals: &Vec<String>,
    a: usize,
) -> (r: Result<Opt, ParseError>)
    requires
        a <= positionals@.len(),
    ensures
        result_view(r) == record_tail(
            target.deep_view(),
            rate,
            format,
            no_drop_root,
            with_subprocesses,
            silent,
            positionals.deep_view().skip(a as int),
        ),
{
    let ghost tail = positionals.deep_view().skip(a as int);
    let m = positionals.len();
    proof {
        assert(tail.len() == m - a);
    }
    if m - a < 1 {
        return Err(ParseError::MissingField(Field::OutPath));
    }
    if m - a < 2 {
        return Err(ParseError::MissingField(Field::RawPath));
    }
    proof {
        assert(tail[0] == positionals.deep_view()[a as int]);
        assert(tail[1] == positionals.deep_view()[a as int + 1]);
    }
    let out_path = positionals[a].clone();
    let raw_path = positionals[a + 1].clone();
    let sample_rate = match rate {
        None => {
            return Err(ParseError::MissingField(Field::Rate));
        },
        Some(r) => r,
    };
    let maybe_duration = if m - a >= 3 {
        proof {
            assert(tail[2] == positionals.deep_view()[a as int + 2]);
        }
        match parse_u64_token(positionals[a + 2].as_str()) {
            None => {
                return Err(ParseError::MalformedDuration(positionals[a + 2].clone()));
            },
            Some(d) => Some(d),
        }
    } else {
        None
    };
    let fm = match format {
        None => {
            return Err(ParseError::MissingField(Field::Format));
        },
        Some(f) => f,
    };
    Ok(
        Opt::Record(
            Record {
                target,
                out_path,
                raw_path,
                sample_rate,
                maybe_duration,
                format: fm,
                no_drop_root,
                with_subprocesses,
                silent,
            },
        ),
    )
}

/// Determine `record`'s target form and check the remaining fields.
fn validate_record(st: Scan) -> (r: Result<Opt, ParseError>)
    ensures
        result_view(r) == spec_validate_record(st.deep_view()),
{
    let ghost stv = st.deep_view();
    let Scan { pids, rate, format, no_drop_root, with_subprocesses, silent, positionals, .. } = st;
    let m = positionals.len();
    if pids.len() > 0 {
        if m > 3 {
            return Err(ParseError::ConflictingTarget);
        }
        proof {
            assert(positionals.deep_view().skip(0) =~= stv.positionals);
        }
        build_record(
            Target::Pid { pid: pids },
            rate,
            format,
            no_drop_root,
            with_subprocesses,
            silent,
            &positionals,
            0,
        )
    } else {
        if m == 0 {
            return Err(ParseError::MissingField(Field::Target));
        }
        let prog = positionals[0].clone();
        if m <= 3 {
            let target = Target::Subprocess { prog, args: Vec::new() };
            proof {
                assert(target.deep_view() =~= (TargetV::Subprocess {
                    prog: stv.positionals[0],
                    args: Seq::empty(),
                }));
            }
            build_record(
                target,
                rate,
                format,
                no_drop_root,
                with_subprocesses,
                silent,
                &positionals,
                1,
            )
        } else {
            let mut args: Vec<String> = Vec::new();
            let mut j: usize = 1;
            let ghost p = positionals.deep_view();
            proof {
                assert(args.deep_view() =~= p.subrange(1, 1));
            }
            while j < m - 3
                invariant
                    1 <= j <= m - 3,
                    m == positionals@.len(),
                    m > 3,
                    p == positionals.deep_view(),
                    args@.len() == j - 1,
                    args.deep_view() == p.subrange(1, j as int),
                decreases m - 3 - j,
            {
                let ghost adv0 = args.deep_view();
                let ghost av0 = args@;
                let c = positionals[j].clone();
                proof {
                    assert(c@ == p[j as int]);
                }
                args.push(c);
                proof {
                    assert(adv0.len() == av0.len());
                    assert(args@ == av0.push(c));
                    assert forall|k: int| 0 <= k < args@.len() implies args.deep_view()[k]
                        == p.subrange(1, j as int + 1)[k] by {
                        assert(args.deep_view()[k] == args@[k].deep_view());
                        if k < av0.len() {
                            assert(args@[k] == av0[k]);
                            assert(av0[k].deep_view() == adv0[k]);
                            assert(adv0[k] == p[k + 1]);
                        } else {
                            assert(args@[k] == c);
                            assert(k == j - 1);
                        }
                    }
                    assert(args.deep_view().len() == j as int);
                    assert(args.deep_view() =~= p.subrange(1, j as int + 1));
                }
                j = j + 1;
            }
            let target = Target::Subprocess { prog, args };
            proof {
                assert(positionals.deep_view().skip(m as int - 3) =~= stv.positionals.subrange(
                    m as int - 3,
                    m as int,
                ));
                assert(target.deep_view() =~= (TargetV::Subprocess {
                    prog: stv.positionals[0],
                    args: stv.positionals.subrange(1, m as int - 3),
                }));
            }
            build_record(
                target,
                rate,
                format,
                no_drop_root,
                with_subprocesses,
                silent,
                &positionals,
                m - 3,
            )
        }
    }
}

impl Opt {
    /// Parse a full argument vector — the leading token is the invoking
    /// program's own name — into one validated command, or the first
    /// structural violation found, exactly as `spec_parse` says.
    pub fn parse_from(tokens: &Vec<String>) -> (r: Result<Opt, ParseError>)
        ensures
            result_view(r) == spec_parse(tokens.deep_view()),
    {
        if tokens.len() < 2 {
            return Err(ParseError::MissingCommand);
        }
        let sel = &tokens[1];
        proof {
            assert(tokens.deep_view()[1] == sel@);
        }
        if tok_eq(sel, "snapshot") {
            match scan_tokens(Subcommand::Snapshot, tokens, 2) {
                Err(e) => Err(e),
                Ok(st) => validate_snapshot(st),
            }
        } else if tok_eq(sel, "record") {
            match scan_tokens(Subcommand::Record, tokens, 2) {
                Err(e) => Err(e),
                Ok(st) => validate_record(st),
            }
        } else if tok_eq(sel, "report") {
            match scan_tokens(Subcommand::Report, tokens, 2) {
                Err(e) => Err(e),
                Ok(st) => validate_report(st),
            }
        } else {
            Err(ParseError::UnknownCommand(sel.clone()))
        }
    }
}

} // verus!
