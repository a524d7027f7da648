use sshsync::command::{
    is_permission_denied, judge_elevated, judge_plain, resolve_mutation, CommandResult,
    MutationOutcome,
};
use sshsync::errors::TransferError;

fn res(exit_code: i32, stderr: &str) -> CommandResult {
    CommandResult { stdout: String::new(), stderr: stderr.to_string(), exit_code }
}

#[test]
fn marker_is_matched_case_insensitively() {
    assert!(is_permission_denied("Permission denied"));
    assert!(is_permission_denied("PERMISSION DENIED"));
    assert!(is_permission_denied("cp: cannot create '/etc/x': Permission denied\n"));
    assert!(is_permission_denied("permission denied"));
}

#[test]
fn other_stderr_is_not_the_marker() {
    assert!(!is_permission_denied("No such file or directory"));
    assert!(!is_permission_denied(""));
    assert!(!is_permission_denied("permission_denied"));
}

#[test]
fn zero_exit_is_done_whatever_stderr_says() {
    assert!(matches!(judge_plain(&res(0, "Permission denied")), MutationOutcome::Done));
}

#[test]
fn denied_failure_escalates() {
    assert!(matches!(judge_plain(&res(1, "mkdir: Permission denied")), MutationOutcome::Escalate));
}

#[test]
fn other_failure_does_not_escalate() {
    match judge_plain(&res(3, "disk full")) {
        MutationOutcome::Fail(TransferError::CommandFailed { exit_code, stderr }) => {
            assert_eq!(exit_code, 3);
            assert_eq!(stderr, "disk full");
        },
        _ => panic!("expected a command failure"),
    }
}

#[test]
fn elevated_failure_is_elevation_failed() {
    match judge_elevated(&res(1, "sudo: wrong password")) {
        MutationOutcome::Fail(TransferError::ElevationFailed { stderr }) => {
            assert_eq!(stderr, "sudo: wrong password");
        },
        _ => panic!("expected an elevation failure"),
    }
    assert!(matches!(judge_elevated(&res(0, "")), MutationOutcome::Done));
}

#[test]
fn resolution_succeeds_plainly_without_elevation() {
    assert_eq!(resolve_mutation(&res(0, ""), None).unwrap(), false);
}

#[test]
fn resolution_after_denied_follows_the_elevated_exit() {
    let plain = res(1, "Permission denied");
    assert_eq!(resolve_mutation(&plain, Some(&res(0, ""))).unwrap(), true);
    let e = resolve_mutation(&plain, Some(&res(1, "still denied"))).unwrap_err();
    assert!(matches!(e, TransferError::ElevationFailed { .. }));
}

#[test]
fn resolution_without_marker_fails_without_retry() {
    let e = resolve_mutation(&res(2, "No space left on device"), None).unwrap_err();
    match e {
        TransferError::CommandFailed { exit_code, stderr } => {
            assert_eq!(exit_code, 2);
            assert_eq!(stderr, "No space left on device");
        },
        _ => panic!("expected a command failure"),
    }
}

#[test]
fn command_failed_message_carries_code_and_stderr() {
    let e = TransferError::CommandFailed { exit_code: -1, stderr: "boom".to_string() };
    assert_eq!(e.message(), "Command exited with code -1: boom");
    let e2 = TransferError::ElevationFailed { stderr: "nope".to_string() };
    assert_eq!(e2.message(), "Elevated command failed: nope");
    let e3 = TransferError::ChannelError { detail: "closed".to_string() };
    assert_eq!(e3.message(), "Channel error: closed");
    let e4 = TransferError::TransferFailed { reason: "short read".to_string() };
    assert_eq!(e4.message(), "File transfer failed: short read");
    let e5 = TransferError::ConnectFailed { detail: "refused".to_string() };
    assert_eq!(e5.message(), "Failed to connect to server: refused");
    let e6 = TransferError::HandshakeFailed { detail: "eof".to_string() };
    assert_eq!(e6.message(), "SSH handshake failed: eof");
    let e7 = TransferError::AuthFailed { detail: "denied".to_string() };
    assert_eq!(e7.message(), "Authentication failed: denied");
}
