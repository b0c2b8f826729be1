//! How the journal reader is invoked, and what follows from each attempt.
//!
//! The reader is an external program, so running it is left to the caller.
//! This module decides: which command line to run, whether an attempt is
//! repeated after the cursor file was reset, and what the attempts amount to.

use crate::matcher::texts;
use crate::text::{contains, decode_lossy, occurs_in, trim, trimmed, utf8_lossy};
use crate::Opt;
use vstd::prelude::*;
use vstd::string::*;

verus! {

/// What the journal reader writes to standard error when it cannot make
/// sense of the cursor it finds in the state file.
pub const SEEK_FAILURE: &'static str = "Failed to seek to cursor";

/// The exit code that stands for a process that ended without one.
pub const NO_EXIT_CODE: i32 = -1;

/// A command line. It is run with standard input closed, and with standard
/// output and standard error captured apart from each other.
#[derive(Debug, Clone)]
pub struct Invocation {
    pub program: String,
    pub args: Vec<String>,
}

/// What one run of the journal reader left behind.
#[derive(Debug, Clone)]
pub struct Captured {
    pub stdout: Vec<u8>,
    pub stderr: Vec<u8>,
    /// The exit code; `None` where the process was ended by a signal.
    pub code: Option<i32>,
}

/// Why no journal output could be had.
#[derive(Debug, Clone)]
pub enum ExecError {
    /// The journal reader could not be started, or the state file could not
    /// be reset before the second attempt.
    Launch { program: String, reason: String },
    /// The journal reader ended with an exit code other than 0.
    Exit { stderr: String, code: i32 },
    /// The caller reported something that cannot follow the last action.
    OutOfTurn,
}

/// An error as contracts see it.
pub enum ExecErrorView {
    Launch { program: Seq<char>, reason: Seq<char> },
    Exit { stderr: Seq<char>, code: int },
    OutOfTurn,
}

impl View for ExecError {
    type V = ExecErrorView;

    open spec fn view(&self) -> ExecErrorView {
        match *self {
            ExecError::Launch { program, reason } => ExecErrorView::Launch {
                program: program@,
                reason: reason@,
            },
            ExecError::Exit { stderr, code } => ExecErrorView::Exit {
                stderr: stderr@,
                code: code as int,
            },
            ExecError::OutOfTurn => ExecErrorView::OutOfTurn,
        }
    }
}

/// Where a run stands.
#[derive(Debug, Clone, Copy, PartialEq, Eq, Structural)]
pub enum Phase {
    /// Nothing has been done yet.
    Start,
    /// The first attempt is under way.
    First,
    /// The state file is being reset.
    Reset,
    /// The second and last attempt is under way.
    Retry,
    /// The result has been handed out.
    Finished,
}

/// What the caller reports back.
#[derive(Debug, Clone)]
pub enum Event {
    /// The run begins.
    Begin,
    /// The journal reader ran and ended.
    Exited(Captured),
    /// The journal reader could not be started; the text says why.
    LaunchFailed(String),
    /// The state file is empty now.
    ResetDone,
    /// The state file could not be emptied; the text says why.
    ResetFailed(String),
}

/// What the caller has to do next.
#[derive(Debug)]
pub enum Action {
    /// Run the command line and report how it ended.
    Run(Invocation),
    /// Truncate the named state file, creating it if need be.
    ResetStateFile(String),
    /// The run is over: the journal reader's standard output, or the error.
    Finish(Result<Vec<u8>, ExecError>),
}

/// An action as contracts see it.
pub enum ActionView {
    Run { program: Seq<char>, args: Seq<Seq<char>> },
    ResetStateFile(Seq<char>),
    Finish(Result<Seq<u8>, ExecErrorView>),
}

impl View for Action {
    type V = ActionView;

    open spec fn view(&self) -> ActionView {
        match *self {
            Action::Run(invocation) => ActionView::Run {
                program: invocation.program@,
                args: texts(invocation.args@),
            },
            Action::ResetStateFile(path) => ActionView::ResetStateFile(path@),
            Action::Finish(result) => ActionView::Finish(
                match result {
                    Ok(stdout) => Ok(stdout@),
                    Err(e) => Err(e@),
                },
            ),
        }
    }
}

/// One argument for each unit filter.
pub open spec fn unit_args(units: Seq<Seq<char>>) -> Seq<Seq<char>> {
    units.map_values(|unit: Seq<char>| "--unit="@ + unit)
}

/// The arguments of the journal reader: no pager, the time span, the unit
/// filters, the user scope and the cursor file, the last three where the
/// options ask for them.
pub open spec fn command_args(opt: Opt) -> Seq<Seq<char>> {
    seq!["--no-pager"@, "--since=-"@ + opt.span@] + (match opt.unit {
        Some(units) => unit_args(texts(units@)),
        None => Seq::empty(),
    }) + (if opt.user {
        seq!["--user"@]
    } else {
        Seq::empty()
    }) + (match opt.statefile {
        Some(path) => seq!["--cursor-file="@ + path@],
        None => Seq::empty(),
    })
}

/// The action that runs the journal reader as the options say.
pub open spec fn run_command(opt: Opt) -> ActionView {
    ActionView::Run { program: opt.journalctl@, args: command_args(opt) }
}

/// The journal reader complained that it could not seek to the cursor.
pub open spec fn cursor_lost(stderr: Seq<u8>) -> bool {
    occurs_in(utf8_lossy(stderr), SEEK_FAILURE@)
}

/// The exit code of a finished process, with the stand-in where it has none.
pub open spec fn exit_code(captured: Captured) -> int {
    match captured.code {
        Some(code) => code as int,
        None => NO_EXIT_CODE as int,
    }
}

/// What a finished attempt amounts to when nothing more is tried: its
/// standard output where it exited with 0, else an error that carries the
/// exit code and what it wrote to standard error, trimmed.
pub open spec fn settled(captured: Captured) -> Result<Seq<u8>, ExecErrorView> {
    if exit_code(captured) != 0 {
        Err(
            ExecErrorView::Exit {
                stderr: trimmed(utf8_lossy(captured.stderr@)),
                code: exit_code(captured),
            },
        )
    } else {
        Ok(captured.stdout@)
    }
}

/// The error for a program that could not be run.
pub open spec fn launch_failure(opt: Opt, reason: Seq<char>) -> ActionView {
    ActionView::Finish(Err(ExecErrorView::Launch { program: opt.journalctl@, reason }))
}

/// The phase and the action that follow when `event` is reported in `phase`.
///
/// The first attempt is repeated once, after the state file was reset, if a
/// state file is configured and the journal reader complained about the
/// cursor. Whatever the second attempt gives is final.
pub open spec fn advance(opt: Opt, phase: Phase, event: Event) -> (Phase, ActionView) {
    let out_of_turn = (Phase::Finished, ActionView::Finish(Err(ExecErrorView::OutOfTurn)));
    match phase {
        Phase::Start => match event {
            Event::Begin => (Phase::First, run_command(opt)),
            _ => out_of_turn,
        },
        Phase::First => match event {
            Event::Exited(captured) => if opt.statefile is Some && cursor_lost(captured.stderr@) {
                (Phase::Reset, ActionView::ResetStateFile(opt.statefile->0@))
            } else {
                (Phase::Finished, ActionView::Finish(settled(captured)))
            },
            Event::LaunchFailed(reason) => (Phase::Finished, launch_failure(opt, reason@)),
            _ => out_of_turn,
        },
        Phase::Reset => match event {
            Event::ResetDone => (Phase::Retry, run_command(opt)),
            Event::ResetFailed(reason) => (Phase::Finished, launch_failure(opt, reason@)),
            _ => out_of_turn,
        },
        Phase::Retry => match event {
            Event::Exited(captured) => (Phase::Finished, ActionView::Finish(settled(captured))),
            Event::LaunchFailed(reason) => (Phase::Finished, launch_failure(opt, reason@)),
            _ => out_of_turn,
        },
        Phase::Finished => out_of_turn,
    }
}

/// Builds the command line of the journal reader.
pub fn invocation(opt: &Opt) -> (command: Invocation)
    ensures
        command.program@ == opt.journalctl@,
        texts(command.args@) == command_args(*opt),
{
    let mut args: Vec<String> = Vec::new();
    args.push("--no-pager".to_owned());
    let mut since = "--since=-".to_owned();
    since.append(opt.span.as_str());
    args.push(since);
    assert(texts(args@) =~= seq!["--no-pager"@, "--since=-"@ + opt.span@]);
    match &opt.unit {
        Some(units) => {
            let ghost before = texts(args@);
            let mut i: usize = 0;
            while i < units.len()
                invariant
                    0 <= i <= units.len(),
                    texts(args@) == before + unit_args(texts(units@)).take(i as int),
                decreases units.len() - i,
            {
                let mut arg = "--unit=".to_owned();
                arg.append(units[i].as_str());
                let ghost listed = texts(args@);
                args.push(arg);
                proof {
                    let all = unit_args(texts(units@));
                    assert(all[i as int] == "--unit="@ + texts(units@)[i as int]);
                    assert(texts(args@) =~= listed.push(all[i as int]));
                    assert(all.take(i as int + 1) =~= all.take(i as int).push(all[i as int]));
                    assert(texts(args@) =~= before + all.take(i as int + 1));
                }
                i += 1;
            }
            assert(unit_args(texts(units@)).take(i as int) =~= unit_args(texts(units@)));
        },
        None => {
            assert(texts(args@) =~= texts(args@) + Seq::<Seq<char>>::empty());
        },
    }
    let ghost with_units = texts(args@);
    if opt.user {
        args.push("--user".to_owned());
        assert(texts(args@) =~= with_units + seq!["--user"@]);
    } else {
        assert(texts(args@) =~= with_units + Seq::<Seq<char>>::empty());
    }
    let ghost with_user = texts(args@);
    match &opt.statefile {
        Some(path) => {
            let mut arg = "--cursor-file=".to_owned();
            arg.append(path.as_str());
            args.push(arg);
            assert(texts(args@) =~= with_user + seq!["--cursor-file="@ + path@]);
        },
        None => {
            assert(texts(args@) =~= with_user + Seq::<Seq<char>>::empty());
        },
    }
    Invocation { program: opt.journalctl.clone(), args }
}

/// Tells whether the journal reader complained about the cursor.
pub fn lost_cursor(stderr: &[u8]) -> (lost: bool)
    ensures
        lost == cursor_lost(stderr@),
{
    let text = decode_lossy(stderr);
    contains(text.as_str(), SEEK_FAILURE)
}

/// Settles a finished attempt after which nothing more is tried.
pub fn settle(captured: Captured) -> (result: Result<Vec<u8>, ExecError>)
    ensures
        match result {
            Ok(stdout) => settled(captured) == Ok::<Seq<u8>, ExecErrorView>(stdout@),
            Err(e) => settled(captured) == Err::<Seq<u8>, ExecErrorView>(e@),
        },
{
    let code: i32 = match captured.code {
        Some(code) => code,
        None => NO_EXIT_CODE,
    };
    if code != 0 {
        let text = decode_lossy(captured.stderr.as_slice());
        Err(ExecError::Exit { stderr: trim(text.as_str()).to_owned(), code })
    } else {
        Ok(captured.stdout)
    }
}

fn out_of_turn() -> (next: (Phase, Action))
    ensures
        next.0 == Phase::Finished,
        next.1@ == ActionView::Finish(Err(ExecErrorView::OutOfTurn)),
{
    (Phase::Finished, Action::Finish(Err(ExecError::OutOfTurn)))
}

fn launch_failed(opt: &Opt, reason: String) -> (next: (Phase, Action))
    ensures
        next.0 == Phase::Finished,
        next.1@ == launch_failure(*opt, reason@),
{
    (
        Phase::Finished,
        Action::Finish(Err(ExecError::Launch { program: opt.journalctl.clone(), reason })),
    )
}

fn finish(captured: Captured) -> (next: (Phase, Action))
    ensures
        next.0 == Phase::Finished,
        next.1@ == ActionView::Finish(settled(captured)),
{
    (Phase::Finished, Action::Finish(settle(captured)))
}

fn attempt(opt: &Opt, phase: Phase) -> (next: (Phase, Action))
    ensures
        next.0 == phase,
        next.1@ == run_command(*opt),
{
    (phase, Action::Run(invocation(opt)))
}

/// Takes what the caller reports and says what to do next.
///
/// A run begins in `Phase::Start` with `Event::Begin` and is over with the
/// first `Action::Finish`.
pub fn step(opt: &Opt, phase: Phase, event: Event) -> (next: (Phase, Action))
    ensures
        next.0 == advance(*opt, phase, event).0,
        next.1@ == advance(*opt, phase, event).1,
{
    match phase {
        Phase::Start => match event {
            Event::Begin => attempt(opt, Phase::First),
            _ => out_of_turn(),
        },
        Phase::First => match event {
            Event::Exited(captured) => {
                match &opt.statefile {
                    Some(path) => {
                        if lost_cursor(captured.stderr.as_slice()) {
                            return (Phase::Reset, Action::ResetStateFile(path.clone()));
                        }
                    },
                    None => {},
                }
                finish(captured)
            },
            Event::LaunchFailed(reason) => launch_failed(opt, reason),
            _ => out_of_turn(),
        },
        Phase::Reset => match event {
            Event::ResetDone => attempt(opt, Phase::Retry),
            Event::ResetFailed(reason) => launch_failed(opt, reason),
            _ => out_of_turn(),
        },
        Phase::Retry => match event {
            Event::Exited(captured) => finish(captured),
            Event::LaunchFailed(reason) => launch_failed(opt, reason),
            _ => out_of_turn(),
        },
        Phase::Finished => out_of_turn(),
    }
}

/// How far a run has come.
pub open spec fn progress(phase: Phase) -> nat {
    match phase {
        Phase::Start => 0,
        Phase::First => 1,
        Phase::Reset => 2,
        Phase::Retry => 3,
        Phase::Finished => 4,
    }
}

/// Every step takes a run forward, and a run is over exactly when its
/// result is handed out. The journal reader is started when the run begins
/// and once more after a reset, so at most twice; the state file is reset
/// only after a first attempt that complained about the cursor, and only
/// where a state file is configured.
pub proof fn law_run_moves_forward(opt: Opt, phase: Phase, event: Event)
    ensures
        phase != Phase::Finished ==> progress(advance(opt, phase, event).0) > progress(phase),
        advance(opt, phase, event).0 == Phase::Finished <==> advance(opt, phase, event).1 is Finish,
        advance(opt, phase, event).1 is Run ==> advance(opt, phase, event).1 == run_command(opt)
            && ((phase == Phase::Start && advance(opt, phase, event).0 == Phase::First) || (phase
            == Phase::Reset && advance(opt, phase, event).0 == Phase::Retry)),
        advance(opt, phase, event).1 is ResetStateFile <==> advance(opt, phase, event).0
            == Phase::Reset,
        advance(opt, phase, event).0 == Phase::Reset <==> phase == Phase::First && event is Exited
            && opt.statefile is Some && cursor_lost(event->Exited_0.stderr@),
{
}

/// Whatever the second attempt gives is final: if the journal reader ended,
/// its output or its failure is the result, also where it complained about
/// the cursor again.
pub proof fn law_second_attempt_is_final(opt: Opt, event: Event)
    ensures
        advance(opt, Phase::Retry, event).0 == Phase::Finished,
        event is Exited ==> advance(opt, Phase::Retry, event).1 == ActionView::Finish(
            settled(event->Exited_0),
        ),
        event is Exited && exit_code(event->Exited_0) != 0 ==> advance(opt, Phase::Retry, event).1
            == ActionView::Finish(
            Err(
                ExecErrorView::Exit {
                    stderr: trimmed(utf8_lossy(event->Exited_0.stderr@)),
                    code: exit_code(event->Exited_0),
                },
            ),
        ),
{
}

/// Only an exit code of 0 gives the journal reader's output; any other,
/// and the end by a signal, is an error that carries the code.
pub proof fn law_exit_code_decides(captured: Captured)
    ensures
        settled(captured) is Ok <==> captured.code == Some(0i32),
        settled(captured) is Ok ==> settled(captured)->Ok_0 == captured.stdout@,
        captured.code is None ==> settled(captured) == Err::<Seq<u8>, ExecErrorView>(
            ExecErrorView::Exit {
                stderr: trimmed(utf8_lossy(captured.stderr@)),
                code: NO_EXIT_CODE as int,
            },
        ),
{
}

} // verus!
