use sshsync::endpoint::{parse_endpoint, SshConnectionInfo};
use sshsync::errors::TransferError;

fn info(username: &str, host: &str) -> SshConnectionInfo {
    SshConnectionInfo {
        username: username.to_string(),
        host: host.to_string(),
        password: "secret".to_string(),
    }
}

#[test]
fn username_field_used_when_host_has_no_at() {
    let r = parse_endpoint(&info("alice", "server1")).unwrap();
    assert_eq!(r.0, "alice");
    assert_eq!(r.1, "server1");
}

#[test]
fn host_embedded_user_overrides_username_field() {
    let r = parse_endpoint(&info("bob", "carol@server2")).unwrap();
    assert_eq!(r.0, "carol");
    assert_eq!(r.1, "server2");
}

#[test]
fn empty_username_field_is_ignored_when_host_embeds_user() {
    let r = parse_endpoint(&info("", "dave@h")).unwrap();
    assert_eq!(r.0, "dave");
    assert_eq!(r.1, "h");
}

#[test]
fn two_ats_are_malformed() {
    let r = parse_endpoint(&info("x", "a@b@c"));
    assert!(matches!(r, Err(TransferError::MalformedAddress)));
}

#[test]
fn empty_user_part_is_malformed() {
    assert!(parse_endpoint(&info("", "server")).is_err());
    assert!(parse_endpoint(&info("x", "@server")).is_err());
}

#[test]
fn empty_host_part_is_malformed() {
    assert!(parse_endpoint(&info("user", "")).is_err());
    assert!(parse_endpoint(&info("x", "user@")).is_err());
}

#[test]
fn malformed_address_message() {
    let e = parse_endpoint(&info("x", "a@b@c")).unwrap_err();
    assert_eq!(e.message(), "Invalid connection string: expected 'user@host'");
}
