use rust_install::errors::{Error, ExitStatus};
use rust_install::utils::cmd_status;
use std::io;

#[test]
fn cmd_status_succeeds_on_exit_zero() {
    assert!(cmd_status("rustc", Ok(ExitStatus { code: Some(0) })).is_ok());
}

#[test]
fn cmd_status_fails_on_exit_one() {
    match cmd_status("rustc", Ok(ExitStatus { code: Some(1) })) {
        Err(Error::CommandStatus { name, status }) => {
            assert_eq!(name, "rustc");
            assert_eq!(status.code, Some(1));
            assert!(!status.success());
        }
        other => panic!("unexpected: {:?}", other),
    }
}

#[test]
fn cmd_status_fails_on_other_codes_and_signals() {
    for code in [Some(-1), Some(2), Some(255), Some(i32::MAX), Some(i32::MIN), None] {
        match cmd_status("installer", Ok(ExitStatus { code })) {
            Err(Error::CommandStatus { name, status }) => {
                assert_eq!(name, "installer");
                assert_eq!(status, ExitStatus { code });
            }
            other => panic!("unexpected: {:?}", other),
        }
    }
}

#[test]
fn cmd_status_fails_on_a_missing_executable() {
    let cause = io::Error::new(io::ErrorKind::NotFound, "no such file");
    match cmd_status("no-such-tool", Err(cause)) {
        Err(Error::RunningCommand { name, error }) => {
            assert_eq!(name, "no-such-tool");
            assert_eq!(error.kind(), io::ErrorKind::NotFound);
        }
        other => panic!("unexpected: {:?}", other),
    }
}

#[test]
fn exit_status_success_is_code_zero() {
    assert!(ExitStatus { code: Some(0) }.success());
    assert!(!ExitStatus { code: Some(1) }.success());
    assert!(!ExitStatus { code: None }.success());
}

#[test]
fn errors_keep_the_cause_or_drop_it() {
    let launch = cmd_status("x", Err(io::Error::new(io::ErrorKind::Other, "x"))).unwrap_err();
    assert_eq!(launch.cause().map(|cause| cause.kind()), Some(io::ErrorKind::Other));
    let status = cmd_status("x", Ok(ExitStatus { code: Some(3) })).unwrap_err();
    assert!(status.cause().is_none());
    assert!(Error::OpeningBrowser.cause().is_none());
    assert!(Error::LocatingHome.cause().is_none());
}
