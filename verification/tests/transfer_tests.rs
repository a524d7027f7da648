use sshsync::command::CommandResult;
use sshsync::transfer::{mode_from_stat, staging_path, transfer_success_message};

fn stat(exit_code: i32, stdout: &str) -> CommandResult {
    CommandResult { stdout: stdout.to_string(), stderr: String::new(), exit_code }
}

#[test]
fn discovered_mode_is_parsed_as_octal() {
    assert_eq!(mode_from_stat(&stat(0, "644\n")), 0o644);
    assert_eq!(mode_from_stat(&stat(0, " 600 ")), 0o600);
    assert_eq!(mode_from_stat(&stat(0, "7777")), 0o7777);
}

#[test]
fn mode_discovery_defaults_on_failure() {
    assert_eq!(mode_from_stat(&stat(1, "")), 0o644);
    assert_eq!(mode_from_stat(&stat(0, "")), 0o644);
    assert_eq!(mode_from_stat(&stat(0, "not a mode")), 0o644);
    assert_eq!(mode_from_stat(&stat(0, "89")), 0o644);
}

#[test]
fn staging_path_carries_the_request_token() {
    assert_eq!(staging_path("req42"), "/tmp/ssh_transfer_req42");
}

#[test]
fn success_messages_name_the_source_path() {
    assert_eq!(transfer_success_message(false, "/a/f"), "File '/a/f' copied successfully");
    assert_eq!(transfer_success_message(true, "/a"), "Folder '/a' copied successfully");
}
