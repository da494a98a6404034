//! Command-line contract for a process sampling profiler.
//!
//! The crate turns a sequence of raw argument tokens into one validated
//! command value — record a running or spawned process, take one snapshot,
//! or post-process a capture file — or rejects the input with a structured
//! parse failure before any profiling work would start.

pub mod cli;
pub mod digits;
pub mod laws;
pub mod model;

pub use cli::parse_duration;
pub use cli::{Field, Opt, OutputFormat, ParseError, Record, Report, Snapshot, Subcommand, Target};
