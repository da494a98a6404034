//! Laws of the parser, stated and proved against the model.
//!
//! Each proof function here is a statement about `spec_parse`, which
//! `Opt::parse_from` is proved to implement exactly; together they pin
//! down the behaviour the command-line contract promises.

use crate::cli::{Field, OutputFormat, Subcommand};
use crate::digits::{pid_of, rate_of, u64_of};
use crate::model::{
    bool_flag_of, format_of, format_token, is_flag_token, spec_parse, spec_scan, value_flag_of,
    OptV, ParseErrorV, RecordV, ReportV, SnapshotV, TargetV,
};
use vstd::prelude::*;

verus! {

/// How the scanner classifies the fixed flag spellings, and that no
/// token without a leading `-` is taken for a flag.
proof fn lemma_token_classes()
    ensures
        "record"@ != "snapshot"@,
        "report"@ != "snapshot"@,
        "report"@ != "record"@,
        value_flag_of(Subcommand::Snapshot, "-p"@) == Some(Field::Pid),
        value_flag_of(Subcommand::Snapshot, "--pid"@) == Some(Field::Pid),
        value_flag_of(Subcommand::Record, "-p"@) == Some(Field::Pid),
        value_flag_of(Subcommand::Record, "--pid"@) == Some(Field::Pid),
        value_flag_of(Subcommand::Record, "-r"@) == Some(Field::Rate),
        value_flag_of(Subcommand::Record, "--rate"@) == Some(Field::Rate),
        value_flag_of(Subcommand::Record, "--format"@) == Some(Field::Format),
        value_flag_of(Subcommand::Report, "--format"@) == Some(Field::Format),
        value_flag_of(Subcommand::Report, "--input"@) == Some(Field::Input),
        value_flag_of(Subcommand::Report, "--output"@) == Some(Field::Output),
        forall|cmd: Subcommand, t: Seq<char>|
            !is_flag_token(t) ==> #[trigger] value_flag_of(cmd, t) is None,
        forall|cmd: Subcommand, t: Seq<char>|
            !is_flag_token(t) ==> #[trigger] bool_flag_of(cmd, t) is None,
{
    reveal_strlit("snapshot");
    reveal_strlit("record");
    reveal_strlit("report");
    reveal_strlit("-p");
    reveal_strlit("--pid");
    reveal_strlit("-r");
    reveal_strlit("--rate");
    reveal_strlit("--format");
    reveal_strlit("--input");
    reveal_strlit("--output");
    reveal_strlit("--no-drop-sudo");
    reveal_strlit("-s");
    reveal_strlit("--sub-processes");
    reveal_strlit("--silent");
    assert("snapshot"@.len() == 8);
    assert("record"@.len() == 6);
    assert("report"@.len() == 6);
    assert("record"@[2] == 'c');
    assert("report"@[2] == 'p');
    assert("-p"@.len() == 2 && "-p"@[0] == '-' && "-p"@[1] == 'p');
    assert("-r"@.len() == 2 && "-r"@[0] == '-' && "-r"@[1] == 'r');
    assert("-s"@.len() == 2 && "-s"@[0] == '-' && "-s"@[1] == 's');
    assert("--pid"@.len() == 5 && "--pid"@[0] == '-');
    assert("--rate"@.len() == 6 && "--rate"@[0] == '-');
    assert("--format"@.len() == 8 && "--format"@[0] == '-' && "--format"@[2] == 'f');
    assert("--input"@.len() == 7 && "--input"@[0] == '-');
    assert("--output"@.len() == 8 && "--output"@[0] == '-' && "--output"@[2] == 'o');
    assert("--silent"@.len() == 8 && "--silent"@[0] == '-' && "--silent"@[2] == 's');
    assert("--no-drop-sudo"@.len() == 14 && "--no-drop-sudo"@[0] == '-');
    assert("--sub-processes"@.len() == 15 && "--sub-processes"@[0] == '-');
    assert forall|cmd: Subcommand, t: Seq<char>|
        !is_flag_token(t) implies #[trigger] value_flag_of(cmd, t) is None by {
        assert(t != "-p"@ && t != "--pid"@ && t != "-r"@ && t != "--rate"@ && t != "--format"@
            && t != "--input"@ && t != "--output"@);
    }
    assert forall|cmd: Subcommand, t: Seq<char>|
        !is_flag_token(t) implies #[trigger] bool_flag_of(cmd, t) is None by {
        assert(t != "--no-drop-sudo"@ && t != "-s"@ && t != "--sub-processes"@ && t
            != "--silent"@);
    }
}

/// Parsing is a pure function of the token sequence: equal sequences
/// parse to equal results, so parsing the same tokens twice yields
/// structurally equal commands with no hidden state.
pub proof fn lemma_parse_deterministic(t1: Seq<Seq<char>>, t2: Seq<Seq<char>>)
    requires
        t1 == t2,
    ensures
        spec_parse(t1) == spec_parse(t2),
{
}

/// For `snapshot`, the short and long pid flags are interchangeable,
/// and a valid pid token yields exactly the snapshot of that pid.
pub proof fn lemma_snapshot_pid_forms(prog: Seq<char>, t: Seq<char>)
    ensures
        spec_parse(seq![prog, "snapshot"@, "-p"@, t]) == spec_parse(
            seq![prog, "snapshot"@, "--pid"@, t],
        ),
        pid_of(t) matches Some(p) ==> spec_parse(seq![prog, "snapshot"@, "-p"@, t]) == Ok::<
            OptV,
            ParseErrorV,
        >(OptV::Snapshot(SnapshotV { pid: p })),
        pid_of(t) is None ==> spec_parse(seq![prog, "snapshot"@, "-p"@, t]) == Err::<
            OptV,
            ParseErrorV,
        >(ParseErrorV::MalformedPid(t)),
{
    reveal_with_fuel(spec_scan, 3);
}

/// A non-numeric (or overflowing) duration token makes an otherwise
/// valid `record` invocation fail with a malformed-duration failure
/// naming that token.
#[verifier::rlimit(100)]
pub proof fn lemma_record_malformed_duration(
    prog: Seq<char>,
    pid_tok: Seq<char>,
    out_tok: Seq<char>,
    raw_tok: Seq<char>,
    dur_tok: Seq<char>,
    rate_tok: Seq<char>,
    fmt_tok: Seq<char>,
)
    requires
        pid_of(pid_tok) is Some,
        !is_flag_token(out_tok),
        !is_flag_token(raw_tok),
        !is_flag_token(dur_tok),
        u64_of(dur_tok) is None,
        rate_of(rate_tok) is Some,
        format_of(fmt_tok) is Some,
    ensures
        spec_parse(
            seq![
                prog,
                "record"@,
                "-p"@,
                pid_tok,
                out_tok,
                raw_tok,
                dur_tok,
                "-r"@,
                rate_tok,
                "--format"@,
                fmt_tok,
            ],
        ) == Err::<OptV, ParseErrorV>(ParseErrorV::MalformedDuration(dur_tok)),
{
    lemma_token_classes();
    reveal_with_fuel(spec_scan, 8);
}

/// Every canonical format token maps to its format and back: the spelling
/// of each format parses to that format, a token that parses is the
/// spelling of what it parses to, and any token outside the fixed set is
/// rejected by exclusion.
pub proof fn lemma_format_round_trip(f: OutputFormat, s: Seq<char>)
    ensures
        format_of(format_token(f)) == Some(f),
        format_of(s) matches Some(g) ==> s == format_token(g),
        format_of(s) is None ==> forall|g: OutputFormat| s != format_token(g),
{
    reveal_strlit("flamegraph");
    reveal_strlit("callgrind");
    reveal_strlit("speedscope");
    reveal_strlit("summary");
    reveal_strlit("summary_by_line");
    assert("flamegraph"@.len() == 10 && "flamegraph"@[0] == 'f');
    assert("callgrind"@.len() == 9);
    assert("speedscope"@.len() == 10 && "speedscope"@[0] == 's');
    assert("summary"@.len() == 7);
    assert("summary_by_line"@.len() == 15);
}

/// A format token outside the fixed set makes `record` fail with an
/// unknown-format failure naming that token.
pub proof fn lemma_record_unknown_format(prog: Seq<char>, fmt_tok: Seq<char>)
    requires
        format_of(fmt_tok) is None,
    ensures
        spec_parse(seq![prog, "record"@, "--format"@, fmt_tok]) == Err::<OptV, ParseErrorV>(
            ParseErrorV::UnknownFormat(fmt_tok),
        ),
{
    lemma_token_classes();
    reveal_with_fuel(spec_scan, 2);
}

/// `record` with neither a pid list nor a trailing program name fails
/// with a missing-target failure, however valid the other fields are.
pub proof fn lemma_record_target_required(
    prog: Seq<char>,
    rate_tok: Seq<char>,
    fmt_tok: Seq<char>,
)
    requires
        rate_of(rate_tok) is Some,
        format_of(fmt_tok) is Some,
    ensures
        spec_parse(seq![prog, "record"@, "-r"@, rate_tok, "--format"@, fmt_tok]) == Err::<
            OptV,
            ParseErrorV,
        >(ParseErrorV::MissingField(Field::Target)),
{
    lemma_token_classes();
    reveal_with_fuel(spec_scan, 4);
}

/// `record` with both target forms — an explicit pid list and a trailing
/// program with its arguments — fails with the exclusivity failure.
#[verifier::rlimit(100)]
pub proof fn lemma_record_target_exclusive(
    prog: Seq<char>,
    pid_tok: Seq<char>,
    prog_tok: Seq<char>,
    out_tok: Seq<char>,
    raw_tok: Seq<char>,
    dur_tok: Seq<char>,
    rate_tok: Seq<char>,
    fmt_tok: Seq<char>,
)
    requires
        pid_of(pid_tok) is Some,
        !is_flag_token(prog_tok),
        !is_flag_token(out_tok),
        !is_flag_token(raw_tok),
        !is_flag_token(dur_tok),
        rate_of(rate_tok) is Some,
        format_of(fmt_tok) is Some,
    ensures
        spec_parse(
            seq![
                prog,
                "record"@,
                "-p"@,
                pid_tok,
                prog_tok,
                out_tok,
                raw_tok,
                dur_tok,
                "-r"@,
                rate_tok,
                "--format"@,
                fmt_tok,
            ],
        ) == Err::<OptV, ParseErrorV>(ParseErrorV::ConflictingTarget),
{
    lemma_token_classes();
    reveal_with_fuel(spec_scan, 9);
}

/// `record` without `-r/--rate` fails with a missing-rate failure even
/// when every other field is present and valid: rate has no default.
#[verifier::rlimit(100)]
pub proof fn lemma_record_rate_required(
    prog: Seq<char>,
    pid_tok: Seq<char>,
    out_tok: Seq<char>,
    raw_tok: Seq<char>,
    dur_tok: Seq<char>,
    fmt_tok: Seq<char>,
)
    requires
        pid_of(pid_tok) is Some,
        !is_flag_token(out_tok),
        !is_flag_token(raw_tok),
        !is_flag_token(dur_tok),
        u64_of(dur_tok) is Some,
        format_of(fmt_tok) is Some,
    ensures
        spec_parse(
            seq![
                prog,
                "record"@,
                "-p"@,
                pid_tok,
                out_tok,
                raw_tok,
                dur_tok,
                "--format"@,
                fmt_tok,
            ],
        ) == Err::<OptV, ParseErrorV>(ParseErrorV::MissingField(Field::Rate)),
{
    lemma_token_classes();
    reveal_with_fuel(spec_scan, 7);
}

/// `report` requires all three of format, input and output; omitting
/// any one fails with a missing-field failure naming that field.
#[verifier::rlimit(50)]
pub proof fn lemma_report_requires_all(
    prog: Seq<char>,
    fmt_tok: Seq<char>,
    in_tok: Seq<char>,
    out_tok: Seq<char>,
)
    requires
        format_of(fmt_tok) is Some,
    ensures
        spec_parse(seq![prog, "report"@, "--input"@, in_tok, "--output"@, out_tok]) == Err::<
            OptV,
            ParseErrorV,
        >(ParseErrorV::MissingField(Field::Format)),
        spec_parse(seq![prog, "report"@, "--format"@, fmt_tok, "--output"@, out_tok]) == Err::<
            OptV,
            ParseErrorV,
        >(ParseErrorV::MissingField(Field::Input)),
        spec_parse(seq![prog, "report"@, "--format"@, fmt_tok, "--input"@, in_tok]) == Err::<
            OptV,
            ParseErrorV,
        >(ParseErrorV::MissingField(Field::Output)),
{
    lemma_token_classes();
    reveal_with_fuel(spec_scan, 4);
}


/// A `record` invocation with one pid, both paths, a duration, a rate
/// and a format — all valid — succeeds, and every field of the command
/// is exactly what its token said.
#[verifier::rlimit(100)]
pub proof fn lemma_record_success(
    prog: Seq<char>,
    pid_tok: Seq<char>,
    out_tok: Seq<char>,
    raw_tok: Seq<char>,
    dur_tok: Seq<char>,
    rate_tok: Seq<char>,
    fmt_tok: Seq<char>,
)
    requires
        !is_flag_token(out_tok),
        !is_flag_token(raw_tok),
        !is_flag_token(dur_tok),
    ensures
        pid_of(pid_tok) matches Some(p) ==> rate_of(rate_tok) matches Some(rt) ==> u64_of(
            dur_tok,
        ) matches Some(d) ==> format_of(fmt_tok) matches Some(f) ==> spec_parse(
            seq![
                prog,
                "record"@,
                "-p"@,
                pid_tok,
                out_tok,
                raw_tok,
                dur_tok,
                "-r"@,
                rate_tok,
                "--format"@,
                fmt_tok,
            ],
        ) == Ok::<OptV, ParseErrorV>(
            OptV::Record(
                RecordV {
                    target: TargetV::Pid { pid: seq![p] },
                    out_path: out_tok,
                    raw_path: raw_tok,
                    sample_rate: rt,
                    maybe_duration: Some(d),
                    format: f,
                    no_drop_root: false,
                    with_subprocesses: false,
                    silent: false,
                },
            ),
        ),
{
    lemma_token_classes();
    reveal_with_fuel(spec_scan, 8);
}

/// A `report` invocation with all three of format, input and output
/// succeeds, with exactly those values.
#[verifier::rlimit(50)]
pub proof fn lemma_report_success(
    prog: Seq<char>,
    fmt_tok: Seq<char>,
    in_tok: Seq<char>,
    out_tok: Seq<char>,
)
    ensures
        format_of(fmt_tok) matches Some(f) ==> spec_parse(
            seq![prog, "report"@, "--format"@, fmt_tok, "--input"@, in_tok, "--output"@, out_tok],
        ) == Ok::<OptV, ParseErrorV>(
            OptV::Report(ReportV { format: f, input: in_tok, output: out_tok }),
        ),
{
    lemma_token_classes();
    reveal_with_fuel(spec_scan, 5);
}

} // verus!
