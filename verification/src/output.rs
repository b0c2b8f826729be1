//! What a run tells the monitoring system: one headline and an exit code,
//! by the conventions of Nagios plugins.

use crate::check::{Status, StatusView};
use crate::rules::LoadError;
use crate::runner::{ExecError, ExecErrorView};
use crate::text::{decimal, digits, signed_decimal, signed_digits};
use vstd::prelude::*;
use vstd::string::*;

verus! {

/// Exit code of a run that found nothing.
pub const EXIT_OK: i32 = 0;

/// Exit code of a run that found warning lines only.
pub const EXIT_WARNING: i32 = 1;

/// Exit code of a run that found critical lines.
pub const EXIT_CRITICAL: i32 = 2;

/// Exit code of a run that could not be completed.
pub const EXIT_UNKNOWN: i32 = 3;

/// The exit code that stands for a status.
pub open spec fn status_exit_code(status: StatusView) -> int {
    match status {
        StatusView::Okay(_) => EXIT_OK as int,
        StatusView::Warning(_) => EXIT_WARNING as int,
        StatusView::Critical(_, _) => EXIT_CRITICAL as int,
    }
}

/// The headline for a status: the check's name, the severity keyword, and
/// the summary or the true numbers of matching lines.
pub open spec fn status_headline(name: Seq<char>, status: StatusView) -> Seq<char> {
    match status {
        StatusView::Okay(summary) => name + " OK - "@ + summary,
        StatusView::Warning(w) => name + " WARNING - "@ + digits(w) + " warning line(s) found"@,
        StatusView::Critical(c, w) => name + " CRITICAL - "@ + digits(c) + " critical, "@
            + digits(w) + " warning line(s) found"@,
    }
}

/// The headline of a run that could not be completed.
pub open spec fn unknown_headline(name: Seq<char>, reason: Seq<char>) -> Seq<char> {
    name + " UNKNOWN - "@ + reason
}

/// What is said of a run that took longer than allowed.
pub open spec fn timeout_reason(seconds: u32) -> Seq<char> {
    "timed out after "@ + digits(seconds as nat) + "s"@
}

impl Status {
    /// The exit code: 0 for success, 1 for warning, 2 for critical.
    pub fn exit_code(&self) -> (code: i32)
        ensures
            code == status_exit_code(self@),
    {
        match self {
            Status::Okay(_) => EXIT_OK,
            Status::Warning(_) => EXIT_WARNING,
            Status::Critical(_, _) => EXIT_CRITICAL,
        }
    }

    /// The headline under the check's name.
    pub fn headline(&self, name: &str) -> (line: String)
        ensures
            line@ == status_headline(name@, self@),
    {
        let mut line = name.to_owned();
        match self {
            Status::Okay(summary) => {
                line.append(" OK - ");
                line.append(summary.as_str());
            },
            Status::Warning(w) => {
                line.append(" WARNING - ");
                line.append(decimal(*w as u64).as_str());
                line.append(" warning line(s) found");
            },
            Status::Critical(c, w) => {
                line.append(" CRITICAL - ");
                line.append(decimal(*c as u64).as_str());
                line.append(" critical, ");
                line.append(decimal(*w as u64).as_str());
                line.append(" warning line(s) found");
            },
        }
        line
    }
}

impl ExecErrorView {
    /// The message of the error.
    pub open spec fn description(self) -> Seq<char> {
        match self {
            ExecErrorView::Launch { program, reason } => "Failed to execute "@ + program + ": "@
                + reason,
            ExecErrorView::Exit { stderr, code } => "journalctl error: "@ + stderr + " (exit "@
                + signed_digits(code) + ")"@,
            ExecErrorView::OutOfTurn => "journalctl was driven out of turn"@,
        }
    }
}

impl ExecError {
    /// Says what went wrong with the journal reader.
    pub fn to_string(&self) -> (text: String)
        ensures
            text@ == self@.description(),
    {
        match self {
            ExecError::Launch { program, reason } => {
                let mut text = "Failed to execute ".to_owned();
                text.append(program.as_str());
                text.append(": ");
                text.append(reason.as_str());
                text
            },
            ExecError::Exit { stderr, code } => {
                let mut text = "journalctl error: ".to_owned();
                text.append(stderr.as_str());
                text.append(" (exit ");
                text.append(signed_decimal(*code as i64).as_str());
                text.append(")");
                text
            },
            ExecError::OutOfTurn => "journalctl was driven out of turn".to_owned(),
        }
    }
}

/// Why a run could not be completed.
#[derive(Debug)]
pub enum Failure {
    /// The rules could not be loaded.
    Load(LoadError),
    /// The journal could not be read.
    Exec(ExecError),
    /// The run took longer than the given number of seconds.
    Timeout(u32),
}

impl Failure {
    /// What is said of the failure.
    pub open spec fn reason(&self) -> Seq<char> {
        match *self {
            Failure::Load(e) => e.description(),
            Failure::Exec(e) => e@.description(),
            Failure::Timeout(seconds) => timeout_reason(seconds),
        }
    }

    /// Every failure ends the run with the exit code for an unknown state.
    pub fn exit_code(&self) -> (code: i32)
        ensures
            code == EXIT_UNKNOWN,
    {
        EXIT_UNKNOWN
    }

    /// Says why the run could not be completed.
    pub fn to_string(&self) -> (text: String)
        ensures
            text@ == self.reason(),
    {
        match self {
            Failure::Load(e) => e.to_string(),
            Failure::Exec(e) => e.to_string(),
            Failure::Timeout(seconds) => {
                let mut text = "timed out after ".to_owned();
                text.append(decimal(*seconds as u64).as_str());
                text.append("s");
                text
            },
        }
    }

    /// The headline under the check's name.
    pub fn headline(&self, name: &str) -> (line: String)
        ensures
            line@ == unknown_headline(name@, self.reason()),
    {
        let mut line = name.to_owned();
        line.append(" UNKNOWN - ");
        line.append(self.to_string().as_str());
        line
    }
}

} // verus!
