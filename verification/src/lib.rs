//! Rule-based classification of journal output for monitoring checks.
//!
//! The crate compiles operator-supplied pattern rules, decides how the
//! journal reader is invoked and retried, and turns the lines it printed
//! into a bounded report with a severity.

use vstd::prelude::*;

pub mod check;
pub mod matcher;
pub mod output;
pub mod rules;
pub mod runner;
pub mod statefile;
pub mod text;
pub mod utils;

verus! {

/// Settings of one run, as resolved from the command line.
#[derive(Debug, Clone)]
pub struct Opt {
    /// Reads journal entries from the last `span` (time suffixes accepted);
    /// applies only if no previous position could be read from the state file.
    pub span: String,
    /// Truncates the report of critical and warning matches to this many
    /// lines each; 0 lifts the limit.
    pub limit: usize,
    /// Does not truncate the report by lines.
    pub no_limit: bool,
    /// Truncates the whole report to this many bytes.
    pub max_bytes: Option<usize>,
    /// Units or unit patterns to which the journal is restricted.
    pub unit: Option<Vec<String>>,
    /// Requests user unit logs.
    pub user: bool,
    /// File in which the journal reader keeps the last log position.
    pub statefile: Option<String>,
    /// The journal reader's executable.
    pub journalctl: String,
    /// Ignored, retained for compatibility.
    pub verbose: bool,
    /// File or URL that holds the match patterns.
    pub rules_yaml: String,
}

impl Default for Opt {
    /// Empty names, no filters, no limits.
    fn default() -> (made: Self)
        ensures
            made.span@.len() == 0,
            made.limit == 0,
            !made.no_limit,
            made.max_bytes is None,
            made.unit is None,
            !made.user,
            made.statefile is None,
            made.journalctl@.len() == 0,
            !made.verbose,
            made.rules_yaml@.len() == 0,
    {
        Opt {
            span: String::new(),
            limit: 0,
            no_limit: false,
            max_bytes: None,
            unit: None,
            user: false,
            statefile: None,
            journalctl: String::new(),
            verbose: false,
            rules_yaml: String::new(),
        }
    }
}

} // verus!
