use check_journal::runner::{
    invocation, lost_cursor, settle, step, Action, Captured, Event, ExecError, Invocation, Phase,
    NO_EXIT_CODE, SEEK_FAILURE,
};
use check_journal::Opt;

fn options() -> Opt {
    Opt { journalctl: "journalctl".to_owned(), span: "600s".to_owned(), ..Opt::default() }
}

fn with_statefile() -> Opt {
    Opt { statefile: Some("/var/lib/check_journal/state".to_owned()), ..options() }
}

fn exited(stdout: &[u8], stderr: &[u8], code: i32) -> Event {
    Event::Exited(Captured { stdout: stdout.to_vec(), stderr: stderr.to_vec(), code: Some(code) })
}

fn expect_run(action: Action) -> Invocation {
    match action {
        Action::Run(invocation) => invocation,
        other => panic!("expected a run, got {:?}", other),
    }
}

fn expect_finish(action: Action) -> Result<Vec<u8>, ExecError> {
    match action {
        Action::Finish(result) => result,
        other => panic!("expected the end, got {:?}", other),
    }
}

const CORRUPT: &[u8] = b"Failed to seek to cursor: Invalid argument\n";

#[test]
fn run_journalctl() {
    let opt = options();
    let (phase, action) = step(&opt, Phase::Start, Event::Begin);
    assert_eq!(phase, Phase::First);
    let command = expect_run(action);
    assert_eq!(command.program, "journalctl");
    assert_eq!(command.args, vec!["--no-pager", "--since=-600s"]);
    let journal = b"Oct 19 06:28:37 host app[1]: error: 1\n";
    let (phase, action) = step(&opt, phase, exited(journal, b"", 0));
    assert_eq!(phase, Phase::Finished);
    assert_eq!(expect_finish(action).expect("exec_journalctl() failed"), journal.to_vec());
}

#[test]
fn run_journalctl_twice_with_corrupted_state_file() {
    let opt = with_statefile();
    let (phase, action) = step(&opt, Phase::Start, Event::Begin);
    let first = expect_run(action);
    let (phase, action) = step(&opt, phase, exited(b"", CORRUPT, 1));
    assert_eq!(phase, Phase::Reset);
    match action {
        Action::ResetStateFile(path) => assert_eq!(path, "/var/lib/check_journal/state"),
        other => panic!("expected a reset, got {:?}", other),
    }
    let (phase, action) = step(&opt, phase, Event::ResetDone);
    assert_eq!(phase, Phase::Retry);
    let second = expect_run(action);
    assert_eq!(second.program, first.program);
    assert_eq!(second.args, first.args);
    let (phase, action) = step(&opt, phase, exited(b"new-format\n", b"", 0));
    assert_eq!(phase, Phase::Finished);
    assert_eq!(expect_finish(action).unwrap(), b"new-format\n".to_vec());
}

#[test]
fn handle_journalctl_failure() {
    let opt = options();
    let (phase, _) = step(&opt, Phase::Start, Event::Begin);
    let (phase, action) = step(&opt, phase, exited(b"", b"dummy for testing\n", 1));
    assert_eq!(phase, Phase::Finished);
    assert_eq!(
        expect_finish(action).unwrap_err().to_string(),
        "journalctl error: dummy for testing (exit 1)"
    );
}

#[test]
fn second_corruption_is_an_error_and_not_retried() {
    let opt = with_statefile();
    let (phase, _) = step(&opt, Phase::Start, Event::Begin);
    let (phase, _) = step(&opt, phase, exited(b"", CORRUPT, 1));
    let (phase, _) = step(&opt, phase, Event::ResetDone);
    let (phase, action) = step(&opt, phase, exited(b"", CORRUPT, 1));
    assert_eq!(phase, Phase::Finished);
    match expect_finish(action) {
        Err(ExecError::Exit { stderr, code }) => {
            assert_eq!(stderr, "Failed to seek to cursor: Invalid argument");
            assert_eq!(code, 1);
        }
        other => panic!("expected an exit error, got {:?}", other),
    }
    // nothing follows the end
    let (phase, action) = step(&opt, phase, Event::ResetDone);
    assert_eq!(phase, Phase::Finished);
    assert!(matches!(expect_finish(action), Err(ExecError::OutOfTurn)));
}

#[test]
fn corruption_without_state_file_is_not_retried() {
    let opt = options();
    let (phase, _) = step(&opt, Phase::Start, Event::Begin);
    let (phase, action) = step(&opt, phase, exited(b"", CORRUPT, 1));
    assert_eq!(phase, Phase::Finished);
    assert!(matches!(expect_finish(action), Err(ExecError::Exit { code: 1, .. })));
}

#[test]
fn corruption_is_told_from_stderr_whatever_the_exit_code() {
    let opt = with_statefile();
    let (phase, _) = step(&opt, Phase::First, exited(b"out", CORRUPT, 0));
    assert_eq!(phase, Phase::Reset);
    // the complaint on standard output does not count
    let (phase, action) = step(&opt, Phase::First, exited(CORRUPT, b"", 0));
    assert_eq!(phase, Phase::Finished);
    assert_eq!(expect_finish(action).unwrap(), CORRUPT.to_vec());
}

#[test]
fn launch_and_reset_failures_end_the_run() {
    let opt = with_statefile();
    let (phase, action) =
        step(&opt, Phase::First, Event::LaunchFailed("No such file or directory".to_owned()));
    assert_eq!(phase, Phase::Finished);
    let e = expect_finish(action).unwrap_err();
    assert!(matches!(e, ExecError::Launch { .. }));
    assert_eq!(e.to_string(), "Failed to execute journalctl: No such file or directory");

    let (phase, action) =
        step(&opt, Phase::Reset, Event::ResetFailed("Permission denied".to_owned()));
    assert_eq!(phase, Phase::Finished);
    assert_eq!(
        expect_finish(action).unwrap_err().to_string(),
        "Failed to execute journalctl: Permission denied"
    );

    let (phase, action) = step(&opt, Phase::Retry, Event::LaunchFailed("gone".to_owned()));
    assert_eq!(phase, Phase::Finished);
    assert!(matches!(expect_finish(action), Err(ExecError::Launch { .. })));
}

#[test]
fn events_out_of_turn_end_the_run() {
    let opt = with_statefile();
    let cases = vec![
        (Phase::Start, Event::ResetDone),
        (Phase::Start, exited(b"", b"", 0)),
        (Phase::First, Event::Begin),
        (Phase::First, Event::ResetDone),
        (Phase::Reset, Event::Begin),
        (Phase::Reset, exited(b"", b"", 0)),
        (Phase::Retry, Event::ResetDone),
        (Phase::Retry, Event::ResetFailed("x".to_owned())),
        (Phase::Finished, Event::Begin),
    ];
    for (phase, event) in cases {
        let (next, action) = step(&opt, phase, event);
        assert_eq!(next, Phase::Finished);
        let e = expect_finish(action).unwrap_err();
        assert!(matches!(e, ExecError::OutOfTurn));
        assert_eq!(e.to_string(), "journalctl was driven out of turn");
    }
}

#[test]
fn exit_code_policy() {
    let ok = settle(Captured { stdout: b"out".to_vec(), stderr: b"noise".to_vec(), code: Some(0) });
    assert_eq!(ok.unwrap(), b"out".to_vec());
    let failed =
        settle(Captured { stdout: b"out".to_vec(), stderr: b" \n oops \t\n".to_vec(), code: Some(2) });
    match failed {
        Err(ExecError::Exit { stderr, code }) => {
            assert_eq!(stderr, "oops");
            assert_eq!(code, 2);
        }
        other => panic!("unexpected {:?}", other),
    }
    let killed = settle(Captured { stdout: vec![], stderr: vec![], code: None });
    match killed {
        Err(e) => {
            assert!(matches!(e, ExecError::Exit { code: -1, .. }));
            assert_eq!(e.to_string(), "journalctl error:  (exit -1)");
        }
        other => panic!("unexpected {:?}", other),
    }
    assert_eq!(NO_EXIT_CODE, -1);
    let negative = settle(Captured { stdout: vec![], stderr: b"x".to_vec(), code: Some(i32::MIN) });
    assert_eq!(negative.unwrap_err().to_string(), "journalctl error: x (exit -2147483648)");
}

#[test]
fn stderr_is_read_lossily_and_trimmed() {
    let failed = settle(Captured {
        stdout: vec![],
        stderr: b"\xa0bad \xff byte\xe2\x80\x83\n".to_vec(),
        code: Some(1),
    });
    match failed {
        Err(ExecError::Exit { stderr, .. }) => assert_eq!(stderr, "\u{fffd}bad \u{fffd} byte"),
        other => panic!("unexpected {:?}", other),
    }
}

#[test]
fn seek_failure_is_found_anywhere_in_stderr() {
    assert_eq!(SEEK_FAILURE, "Failed to seek to cursor");
    assert!(lost_cursor(b"Failed to seek to cursor"));
    assert!(lost_cursor(b"journalctl: Failed to seek to cursor: Invalid argument\n"));
    assert!(lost_cursor(b"\xff\nFailed to seek to cursor"));
    assert!(!lost_cursor(b""));
    assert!(!lost_cursor(b"Failed to seek to cursoX"));
    assert!(!lost_cursor(b"failed to seek to cursor"));
}

#[test]
fn command_line_has_all_options() {
    let opt = Opt {
        journalctl: "/usr/bin/journalctl".to_owned(),
        span: "2h".to_owned(),
        unit: Some(vec!["nginx.service".to_owned(), "ssh*".to_owned()]),
        user: true,
        statefile: Some("/tmp/state file".to_owned()),
        ..Opt::default()
    };
    let command = invocation(&opt);
    assert_eq!(command.program, "/usr/bin/journalctl");
    assert_eq!(
        command.args,
        vec![
            "--no-pager",
            "--since=-2h",
            "--unit=nginx.service",
            "--unit=ssh*",
            "--user",
            "--cursor-file=/tmp/state file",
        ]
    );
}

#[test]
fn command_line_leaves_out_what_is_not_asked_for() {
    let opt = Opt { unit: Some(vec![]), ..options() };
    assert_eq!(invocation(&opt).args, vec!["--no-pager", "--since=-600s"]);
    let opt = Opt { user: true, ..options() };
    assert_eq!(invocation(&opt).args, vec!["--no-pager", "--since=-600s", "--user"]);
    let opt = Opt { statefile: Some("s".to_owned()), ..options() };
    assert_eq!(invocation(&opt).args, vec!["--no-pager", "--since=-600s", "--cursor-file=s"]);
}

#[test]
fn every_kind_of_white_space_is_trimmed() {
    let spaces = [
        '\u{9}', '\u{a}', '\u{b}', '\u{c}', '\u{d}', ' ', '\u{85}', '\u{a0}', '\u{1680}',
        '\u{2000}', '\u{2001}', '\u{2002}', '\u{2003}', '\u{2004}', '\u{2005}', '\u{2006}',
        '\u{2007}', '\u{2008}', '\u{2009}', '\u{200a}', '\u{2028}', '\u{2029}', '\u{202f}',
        '\u{205f}', '\u{3000}',
    ];
    for c in spaces {
        let stderr = format!("{}in {} side{}", c, c, c);
        let failed = settle(Captured { stdout: vec![], stderr: stderr.into_bytes(), code: Some(1) });
        match failed {
            Err(ExecError::Exit { stderr, .. }) => assert_eq!(stderr, format!("in {} side", c)),
            other => panic!("unexpected {:?}", other),
        }
    }
}

#[test]
fn what_is_no_white_space_stays() {
    let others = [
        '\u{8}', '\u{e}', '\u{1f}', '!', '\u{84}', '\u{86}', '\u{9f}', '\u{a1}', '\u{167f}',
        '\u{1681}', '\u{180e}', '\u{1fff}', '\u{200b}', '\u{200c}', '\u{2027}', '\u{202a}',
        '\u{202e}', '\u{2030}', '\u{205e}', '\u{2060}', '\u{2fff}', '\u{3001}', '\u{feff}',
    ];
    for c in others {
        let stderr = format!("{}x{}", c, c);
        let failed =
            settle(Captured { stdout: vec![], stderr: stderr.clone().into_bytes(), code: Some(1) });
        match failed {
            Err(ExecError::Exit { stderr: kept, .. }) => assert_eq!(kept, stderr),
            other => panic!("unexpected {:?}", other),
        }
    }
}

#[test]
fn stderr_of_white_space_only_trims_to_nothing() {
    let failed = settle(Captured { stdout: vec![], stderr: b" \t\r\n".to_vec(), code: Some(7) });
    assert_eq!(failed.unwrap_err().to_string(), "journalctl error:  (exit 7)");
}
