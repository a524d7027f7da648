use sshsync::command::CommandResult;
use sshsync::errors::TransferError;
use sshsync::listing::{join_path, parse_directory_listing, parse_listing};

fn ls_output() -> String {
    [
        "total 24",
        "drwxr-xr-x  3 root root 4096 Jan  1 00:00 .",
        "drwxr-xr-x 18 root root 4096 Jan  1 00:00 ..",
        "-rw-r--r--  1 root root   10 Jan  1 00:00 report 2024.txt",
        "-rw-r--r--  1 root root    5 Jan  1 00:00 notes.md",
        "drwxr-xr-x  2 root root 4096 Jan  1 00:00 sub",
        "broken line",
    ]
    .join("\n")
}

#[test]
fn dot_entries_are_discarded_and_space_preserved() {
    let entries = parse_listing(&ls_output(), "/home/u");
    assert_eq!(entries.len(), 3);
    assert_eq!(entries[0].name, "report 2024.txt");
    assert!(!entries[0].is_folder);
    assert_eq!(entries[0].path, "/home/u/report 2024.txt");
    assert_eq!(entries[1].name, "notes.md");
    assert!(!entries[1].is_folder);
    assert_eq!(entries[2].name, "sub");
    assert!(entries[2].is_folder);
    for e in &entries {
        assert_ne!(e.name, ".");
        assert_ne!(e.name, "..");
    }
}

#[test]
fn directory_flag_follows_leading_d() {
    let out = "total 0\n\
               drwx------ 2 u g 4096 Jan 1 00:00 locked\n\
               -rwxr-xr-x 1 u g   99 Jan 1 00:00 script.sh";
    let entries = parse_listing(out, "/x");
    assert_eq!(entries.len(), 2);
    assert!(entries[0].is_folder);
    assert!(!entries[1].is_folder);
}

#[test]
fn first_line_is_skipped_even_if_it_parses() {
    let out = "-rw-r--r-- 1 u g 1 Jan 1 00:00 should-be-skipped\n\
               -rw-r--r-- 1 u g 1 Jan 1 00:00 kept";
    let entries = parse_listing(out, "/x");
    assert_eq!(entries.len(), 1);
    assert_eq!(entries[0].name, "kept");
}

#[test]
fn short_lines_are_skipped() {
    let out = "total 0\nonly three fields";
    assert!(parse_listing(out, "/x").is_empty());
    assert!(parse_listing("", "/x").is_empty());
}

#[test]
fn base_with_trailing_slash_is_not_doubled() {
    assert_eq!(join_path("/home/u/", "a.txt"), "/home/u/a.txt");
    assert_eq!(join_path("/home/u", "a.txt"), "/home/u/a.txt");
    assert_eq!(join_path("", "a.txt"), "/a.txt");
}

#[test]
fn nonzero_exit_is_a_listing_failure() {
    let r = CommandResult {
        stdout: String::new(),
        stderr: "ls: cannot access '/nope': No such file or directory".to_string(),
        exit_code: 2,
    };
    let e = parse_directory_listing(&r, "/nope").unwrap_err();
    match &e {
        TransferError::ListFailed { exit_code } => assert_eq!(*exit_code, 2),
        _ => panic!("wrong error kind"),
    }
    assert_eq!(e.message(), "Listing command exited with code 2");
}

#[test]
fn zero_exit_parses_stdout() {
    let r = CommandResult { stdout: ls_output(), stderr: String::new(), exit_code: 0 };
    let entries = parse_directory_listing(&r, "/home/u").unwrap();
    assert_eq!(entries.len(), 3);
}
