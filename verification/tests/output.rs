use check_journal::check::Status;
use check_journal::output::{Failure, EXIT_CRITICAL, EXIT_OK, EXIT_UNKNOWN, EXIT_WARNING};
use check_journal::rules::{LoadCause, LoadError};
use check_journal::runner::ExecError;
use check_journal::text::{decimal, signed_decimal};

#[test]
fn exit_codes_follow_the_plugin_convention() {
    assert_eq!(Status::Okay("no matches".into()).exit_code(), 0);
    assert_eq!(Status::Warning(3).exit_code(), 1);
    assert_eq!(Status::Critical(1, 0).exit_code(), 2);
    assert_eq!(Status::Critical(0, 0).exit_code(), 2);
    assert_eq!((EXIT_OK, EXIT_WARNING, EXIT_CRITICAL, EXIT_UNKNOWN), (0, 1, 2, 3));
}

#[test]
fn headlines() {
    assert_eq!(
        Status::Okay("no matches".into()).headline("check_journal"),
        "check_journal OK - no matches"
    );
    assert_eq!(
        Status::Warning(12).headline("check_journal"),
        "check_journal WARNING - 12 warning line(s) found"
    );
    assert_eq!(
        Status::Critical(2, 1).headline("check_journal"),
        "check_journal CRITICAL - 2 critical, 1 warning line(s) found"
    );
    assert_eq!(
        Status::Critical(100, 0).headline("x"),
        "x CRITICAL - 100 critical, 0 warning line(s) found"
    );
}

#[test]
fn failures_are_unknown() {
    let timeout = Failure::Timeout(90);
    assert_eq!(timeout.exit_code(), 3);
    assert_eq!(timeout.to_string(), "timed out after 90s");
    assert_eq!(timeout.headline("check_journal"), "check_journal UNKNOWN - timed out after 90s");

    let exec = Failure::Exec(ExecError::Exit { stderr: "boom".to_owned(), code: 4 });
    assert_eq!(exec.exit_code(), 3);
    assert_eq!(
        exec.headline("check_journal"),
        "check_journal UNKNOWN - journalctl error: boom (exit 4)"
    );

    let load = Failure::Load(LoadError {
        source: "r.yaml".to_owned(),
        cause: LoadCause::Unreachable("gone".to_owned()),
    });
    assert_eq!(load.exit_code(), 3);
    assert_eq!(
        load.headline("check_journal"),
        "check_journal UNKNOWN - Cannot open rules file r.yaml: gone"
    );
}

#[test]
fn decimal_numbers() {
    assert_eq!(decimal(0), "0");
    assert_eq!(decimal(7), "7");
    assert_eq!(decimal(10), "10");
    assert_eq!(decimal(1234567890), "1234567890");
    assert_eq!(decimal(u64::MAX), "18446744073709551615");
    assert_eq!(signed_decimal(0), "0");
    assert_eq!(signed_decimal(-1), "-1");
    assert_eq!(signed_decimal(305), "305");
    assert_eq!(signed_decimal(i64::MIN), "-9223372036854775808");
    assert_eq!(signed_decimal(i64::MAX), "9223372036854775807");
}
