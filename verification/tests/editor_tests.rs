use sshsync::command::CommandResult;
use sshsync::editor::{
    check_file_permissions, editor_staging_path, get_file_type, is_binary_mime,
    is_likely_text_file, is_text_file, parse_file_info, EditorEvent, ReadAction, ReadFile,
    SaveAction, SaveFile,
};
use sshsync::errors::TransferError;
use sshsync::shell::RemoteCmd;

fn res(exit_code: i32, stdout: &str, stderr: &str) -> CommandResult {
    CommandResult { stdout: stdout.to_string(), stderr: stderr.to_string(), exit_code }
}

#[test]
fn known_extensions_are_text() {
    assert!(is_text_file("notes.txt"));
    assert!(is_text_file("src.RS"));
    assert!(is_text_file("README"));
    assert!(is_text_file("Makefile"));
    assert!(is_text_file("a.tar.gz") == false);
    assert!(!is_text_file("photo.png"));
    assert!(!is_text_file("prog.exe"));
}

#[test]
fn file_type_is_the_lowered_last_segment() {
    assert_eq!(get_file_type("a.TXT"), "txt");
    assert_eq!(get_file_type("archive.tar.gz"), "gz");
    assert_eq!(get_file_type("README"), "readme");
    assert_eq!(get_file_type("a."), "");
}

#[test]
fn likely_text_accepts_listed_names_and_clean_content() {
    assert!(is_likely_text_file("/etc/config.yaml", ""));
    let clean = "printable text\n".repeat(100);
    assert!(is_likely_text_file("/opt/data.bin", &clean));
}

#[test]
fn likely_text_rejects_noisy_short_content() {
    let noisy: String = "\u{1}\u{2}\u{3}\u{4}\u{5}abcd".to_string();
    assert!(!is_likely_text_file("/opt/data.bin", &noisy));
}

#[test]
fn likely_text_samples_the_first_thousand_characters() {
    let mut long = String::new();
    for _ in 0..1100 {
        long.push('a');
    }
    assert!(is_likely_text_file("/opt/data.bin", &long));
    let mut bad = String::new();
    for _ in 0..60 {
        bad.push('\u{1}');
    }
    for _ in 0..1100 {
        bad.push('a');
    }
    assert!(!is_likely_text_file("/opt/data.bin", &bad));
}

#[test]
fn permission_check_is_by_name_only() {
    assert_eq!(check_file_permissions("/var/log/app.log".to_string()), Ok(true));
    assert_eq!(check_file_permissions("/usr/bin/tool".to_string()), Ok(false));
}

#[test]
fn mime_classification() {
    assert!(!is_binary_mime("text/plain\n"));
    assert!(!is_binary_mime("application/json"));
    assert!(!is_binary_mime("application/xml\n"));
    assert!(!is_binary_mime("TEXT/HTML"));
    assert!(is_binary_mime("application/octet-stream"));
    assert!(is_binary_mime("image/png"));
    assert!(is_binary_mime(""));
}

#[test]
fn file_info_parses_kind_and_size() {
    let i = parse_file_info("regular file|1234\n");
    assert!(i.known);
    assert!(!i.is_symlink);
    assert_eq!(i.file_size, Some(1234));

    let l = parse_file_info("symbolic link|9");
    assert!(l.known);
    assert!(l.is_symlink);
    assert_eq!(l.file_size, Some(9));

    let e = parse_file_info("error\n");
    assert!(!e.known);
    assert!(!e.is_symlink);
    assert_eq!(e.file_size, None);

    let t = parse_file_info("a|b|c");
    assert!(!t.known);

    let n = parse_file_info("regular file|big");
    assert!(n.known);
    assert_eq!(n.file_size, None);
}

#[test]
fn read_of_a_text_file_returns_editable_content() {
    let (mut m, a) = ReadFile::new("/etc/app.conf".to_string());
    match &a {
        ReadAction::Run(RemoteCmd::StatInfo { path }) => assert_eq!(path, "/etc/app.conf"),
        _ => panic!("expected the introspection command"),
    }
    let a = m.step(EditorEvent::Command(res(0, "regular file|12\n", "")));
    match &a {
        ReadAction::Run(RemoteCmd::ReadFile { path }) => assert_eq!(path, "/etc/app.conf"),
        _ => panic!("expected the read command"),
    }
    let a = m.step(EditorEvent::Command(res(0, "key = value\n", "")));
    match a {
        ReadAction::Finished(fc) => {
            assert_eq!(fc.content, "key = value\n");
            assert!(fc.is_editable);
            assert_eq!(fc.file_type, "conf");
            assert!(!fc.is_symlink);
            assert_eq!(fc.file_size, Some(12));
        },
        _ => panic!("expected the finished content"),
    }
}

#[test]
fn read_of_a_symlink_describes_it() {
    let (mut m, _) = ReadFile::new("/etc/alt".to_string());
    let a = m.step(EditorEvent::Command(res(0, "symbolic link|4", "")));
    assert!(matches!(&a, ReadAction::Run(RemoteCmd::ReadLink { .. })));
    let a = m.step(EditorEvent::Command(res(0, "/usr/real\n", "")));
    match a {
        ReadAction::Finished(fc) => {
            assert_eq!(fc.content, "Symbolic link\nPath: /etc/alt\nPoints to: /usr/real");
            assert!(fc.is_symlink);
            assert!(!fc.is_editable);
            assert_eq!(fc.symlink_target, Some("/usr/real".to_string()));
        },
        _ => panic!("expected the symlink description"),
    }
}

#[test]
fn read_of_an_oversized_file_is_refused() {
    let (mut m, _) = ReadFile::new("/var/big.log".to_string());
    let a = m.step(EditorEvent::Command(res(0, "regular file|10000001", "")));
    match a {
        ReadAction::Finished(fc) => {
            assert_eq!(
                fc.content,
                "File too large to view\nSize: 10000001 bytes\nPath: /var/big.log"
            );
            assert!(!fc.is_editable);
            assert_eq!(fc.file_size, Some(10000001));
        },
        _ => panic!("expected the size refusal"),
    }
}

#[test]
fn read_of_a_binary_file_describes_it() {
    let (mut m, _) = ReadFile::new("/usr/bin/tool".to_string());
    let a = m.step(EditorEvent::Command(res(0, "regular file|500", "")));
    assert!(matches!(&a, ReadAction::Run(RemoteCmd::MimeType { .. })));
    let a = m.step(EditorEvent::Command(res(0, "application/octet-stream\n", "")));
    assert!(matches!(&a, ReadAction::Run(RemoteCmd::Describe { .. })));
    let a = m.step(EditorEvent::Command(res(0, "ELF 64-bit executable\n", "")));
    match a {
        ReadAction::Finished(fc) => {
            assert_eq!(
                fc.content,
                "Binary file\nType: tool\nPath: /usr/bin/tool\nInfo: ELF 64-bit executable"
            );
            assert!(!fc.is_editable);
        },
        _ => panic!("expected the binary description"),
    }
}

#[test]
fn read_failure_surfaces_a_channel_error() {
    let (mut m, _) = ReadFile::new("/etc/app.conf".to_string());
    let a = m.step(EditorEvent::Failure("connection reset".to_string()));
    match a {
        ReadAction::Fail(TransferError::ChannelError { detail }) => {
            assert_eq!(detail, "connection reset");
        },
        _ => panic!("expected a channel error"),
    }
}

#[test]
fn save_refuses_non_text_content() {
    let noisy = "\u{1}\u{2}\u{3}\u{4}\u{5}abcd".to_string();
    match SaveFile::new("/opt/blob.bin".to_string(), noisy, "/tmp/e1".to_string()) {
        Err(e) => assert_eq!(e, "This file type cannot be edited"),
        Ok(_) => panic!("expected the save to be refused"),
    }
}

#[test]
fn save_goes_through_the_staging_file() {
    let (mut m, a) = SaveFile::new(
        "/etc/motd.txt".to_string(),
        "hello".to_string(),
        "/tmp/e7".to_string(),
    )
    .unwrap();
    match &a {
        SaveAction::Run(RemoteCmd::StoreText { staging, dest, content }) => {
            assert_eq!(staging, "/tmp/e7");
            assert_eq!(dest, "/etc/motd.txt");
            assert_eq!(content, "hello");
        },
        _ => panic!("expected the staged store"),
    }
    let a = m.step(EditorEvent::Command(res(0, "", "")));
    match a {
        SaveAction::Saved(msg) => assert_eq!(msg, "File saved successfully"),
        _ => panic!("expected success"),
    }
}

#[test]
fn denied_save_retries_through_tee() {
    let (mut m, _) = SaveFile::new(
        "/etc/motd.txt".to_string(),
        "hello".to_string(),
        "/tmp/e8".to_string(),
    )
    .unwrap();
    let a = m.step(EditorEvent::Command(res(1, "", "sh: /etc/motd.txt: Permission denied")));
    match &a {
        SaveAction::Run(RemoteCmd::TeeText { dest, content }) => {
            assert_eq!(dest, "/etc/motd.txt");
            assert_eq!(content, "hello");
        },
        _ => panic!("expected the elevated write"),
    }
    let a = m.step(EditorEvent::Command(res(0, "", "")));
    match a {
        SaveAction::Saved(msg) => assert_eq!(msg, "File saved with administrator rights"),
        _ => panic!("expected elevated success"),
    }
}

#[test]
fn failed_elevated_save_is_an_elevation_failure() {
    let (mut m, _) = SaveFile::new(
        "/etc/motd.txt".to_string(),
        "hello".to_string(),
        "/tmp/e9".to_string(),
    )
    .unwrap();
    let _ = m.step(EditorEvent::Command(res(1, "", "Permission denied")));
    let a = m.step(EditorEvent::Command(res(1, "", "sudo: no tty")));
    match a {
        SaveAction::Fail(TransferError::ElevationFailed { stderr }) => {
            assert_eq!(stderr, "sudo: no tty");
        },
        _ => panic!("expected an elevation failure"),
    }
}

#[test]
fn save_failure_without_marker_does_not_retry() {
    let (mut m, _) = SaveFile::new(
        "/etc/motd.txt".to_string(),
        "hello".to_string(),
        "/tmp/e10".to_string(),
    )
    .unwrap();
    let a = m.step(EditorEvent::Command(res(1, "", "No space left on device")));
    match a {
        SaveAction::Fail(TransferError::CommandFailed { exit_code, stderr }) => {
            assert_eq!(exit_code, 1);
            assert_eq!(stderr, "No space left on device");
        },
        _ => panic!("expected a command failure"),
    }
}

#[test]
fn editor_staging_carries_the_token() {
    assert_eq!(editor_staging_path("t3"), "/tmp/ssh_editor_t3");
}
