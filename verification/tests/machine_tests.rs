use std::collections::{BTreeMap, BTreeSet};

use sshsync::command::{judge_elevated, judge_plain, CommandResult, MutationOutcome};
use sshsync::errors::TransferError;
use sshsync::shell::RemoteCmd;
use sshsync::sync::{DirSync, SyncAction, SyncEvent};
use sshsync::transfer::{staging_path, FileTransfer, FtAction, FtEvent};

/// An in-memory remote host: files with bytes and mode, directories, and
/// a set of path prefixes that refuse unelevated writes.
#[derive(Clone, PartialEq, Debug)]
struct Host {
    files: BTreeMap<String, (Vec<u8>, u32)>,
    dirs: BTreeSet<String>,
    protected: Vec<String>,
    deny_message: String,
    elevated_calls: usize,
}

impl Host {
    fn new() -> Host {
        Host {
            files: BTreeMap::new(),
            dirs: BTreeSet::new(),
            protected: Vec::new(),
            deny_message: "Permission denied".to_string(),
            elevated_calls: 0,
        }
    }

    fn needs_elevation(&self, path: &str) -> bool {
        self.protected.iter().any(|p| path.starts_with(p.as_str()))
    }

    fn ok(stdout: &str) -> CommandResult {
        CommandResult { stdout: stdout.to_string(), stderr: String::new(), exit_code: 0 }
    }

    fn fail(code: i32, stderr: &str) -> CommandResult {
        CommandResult { stdout: String::new(), stderr: stderr.to_string(), exit_code: code }
    }

    fn run(&mut self, cmd: &RemoteCmd, elevated: bool) -> CommandResult {
        if elevated {
            self.elevated_calls += 1;
        }
        match cmd {
            RemoteCmd::StatMode { path } => match self.files.get(path.as_str()) {
                Some((_, mode)) => Host::ok(&format!("{:o}\n", mode)),
                None => Host::fail(1, "stat: cannot stat"),
            },
            RemoteCmd::FinalizeCopy { staging, dest } => {
                if !elevated && self.needs_elevation(dest) {
                    let msg = self.deny_message.clone();
                    return Host::fail(1, &format!("cp: cannot create '{}': {}", dest, msg));
                }
                match self.files.get(staging.as_str()).cloned() {
                    Some((bytes, _)) => {
                        let mode = self.files.get(dest.as_str()).map(|f| f.1).unwrap_or(0o644);
                        self.files.insert(dest.clone(), (bytes, mode));
                        self.files.remove(staging.as_str());
                        Host::ok("")
                    },
                    None => Host::fail(1, "cp: missing staging file"),
                }
            },
            RemoteCmd::CopyFile { from, to } => {
                if !elevated && self.needs_elevation(to) {
                    let msg = self.deny_message.clone();
                    return Host::fail(1, &format!("cp: cannot create '{}': {}", to, msg));
                }
                match self.files.get(from.as_str()).cloned() {
                    Some((bytes, _)) => {
                        let mode = self.files.get(to.as_str()).map(|f| f.1).unwrap_or(0o644);
                        self.files.insert(to.clone(), (bytes, mode));
                        Host::ok("")
                    },
                    None => Host::fail(1, "cp: missing source"),
                }
            },
            RemoteCmd::SetMode { path, mode } => {
                if !elevated && self.needs_elevation(path) {
                    let msg = self.deny_message.clone();
                    return Host::fail(1, &format!("chmod: changing '{}': {}", path, msg));
                }
                match self.files.get_mut(path.as_str()) {
                    Some(entry) => {
                        entry.1 = *mode;
                        Host::ok("")
                    },
                    None => Host::fail(1, "chmod: cannot access"),
                }
            },
            RemoteCmd::RemoveFile { path } => {
                self.files.remove(path.as_str());
                Host::ok("")
            },
            RemoteCmd::MakeDirAll { path } => {
                if !elevated && self.needs_elevation(path) {
                    let msg = self.deny_message.clone();
                    return Host::fail(1, &format!("mkdir: cannot create '{}': {}", path, msg));
                }
                self.dirs.insert(path.clone());
                Host::ok("")
            },
            _ => Host::fail(1, "unsupported"),
        }
    }

    fn parent(path: &str) -> &str {
        match path.rfind('/') {
            Some(i) => &path[..i],
            None => "",
        }
    }

    /// Renders a long-format listing of one directory, as the remote
    /// listing command would.
    fn listing(&self, path: &str) -> CommandResult {
        if !self.dirs.contains(path) {
            return Host::fail(2, "ls: cannot access");
        }
        let mut out = String::from("total 0\n");
        out.push_str("drwxr-xr-x 2 u g 4096 Jan 1 00:00 .\n");
        out.push_str("drwxr-xr-x 2 u g 4096 Jan 1 00:00 ..\n");
        let mut names: Vec<(String, bool)> = Vec::new();
        for f in self.files.keys() {
            if Host::parent(f) == path {
                names.push((f[path.len() + 1..].to_string(), false));
            }
        }
        for d in self.dirs.iter() {
            if d.as_str() != path && Host::parent(d) == path {
                names.push((d[path.len() + 1..].to_string(), true));
            }
        }
        names.sort();
        for (name, is_dir) in names {
            if is_dir {
                out.push_str(&format!("drwxr-xr-x 2 u g 4096 Jan 1 00:00 {}\n", name));
            } else {
                out.push_str(&format!("-rw-r--r-- 1 u g 1 Jan 1 00:00 {}\n", name));
            }
        }
        Host::ok(&out)
    }
}

/// Drives one file transfer against the in-memory hosts, performing the
/// I/O each action asks for.
fn run_file_transfer(
    src: &Host,
    dst: &mut Host,
    source_path: &str,
    dest_path: &str,
    staging: &str,
) -> Result<(), TransferError> {
    let (mut m, mut action) =
        FileTransfer::new(source_path.to_string(), dest_path.to_string(), staging.to_string());
    loop {
        action = match action {
            FtAction::RunSource(cmd) => {
                let res = match &cmd {
                    RemoteCmd::StatMode { path } => match src.files.get(path.as_str()) {
                        Some((_, mode)) => Host::ok(&format!("{:o}\n", mode)),
                        None => Host::fail(1, "stat: cannot stat"),
                    },
                    _ => Host::fail(1, "unsupported"),
                };
                m.step(FtEvent::Command(res))
            },
            FtAction::OpenStreams { source, staging } => {
                match src.files.get(source.as_str()).cloned() {
                    None => m.step(FtEvent::IoError("cannot open source file".to_string())),
                    Some((bytes, _)) => {
                        dst.files.insert(staging.clone(), (Vec::new(), 0o600));
                        let mut next = None;
                        for chunk in bytes.chunks(4) {
                            match m.step(FtEvent::Chunk(chunk.to_vec())) {
                                FtAction::Write(w) => {
                                    dst.files.get_mut(staging.as_str()).unwrap().0.extend(w);
                                },
                                other => {
                                    next = Some(other);
                                    break;
                                },
                            }
                        }
                        match next {
                            Some(a) => a,
                            None => m.step(FtEvent::Eof),
                        }
                    },
                }
            },
            FtAction::Write(_) => unreachable!("writes are handled while streaming"),
            FtAction::RunDest(cmd) => {
                let res = dst.run(&cmd, false);
                m.step(FtEvent::Command(res))
            },
            FtAction::RunDestElevated(cmd) => {
                let res = dst.run(&cmd, true);
                m.step(FtEvent::Command(res))
            },
            FtAction::Finished => return Ok(()),
            FtAction::Fail(e) => return Err(e),
        };
    }
}

/// Makes a destination directory exist, under the privileged retry, as
/// the synchronizer's caller would.
fn ensure_dir(dst: &mut Host, path: &str) -> SyncEvent {
    if dst.dirs.contains(path) {
        return SyncEvent::DirReady;
    }
    let cmd = RemoteCmd::MakeDirAll { path: path.to_string() };
    let plain = dst.run(&cmd, false);
    match judge_plain(&plain) {
        MutationOutcome::Done => SyncEvent::DirReady,
        MutationOutcome::Escalate => {
            let el = dst.run(&cmd, true);
            match judge_elevated(&el) {
                MutationOutcome::Done => SyncEvent::DirReady,
                MutationOutcome::Fail(e) => SyncEvent::StepFailed(e),
                MutationOutcome::Escalate => unreachable!("elevation never escalates again"),
            }
        },
        MutationOutcome::Fail(e) => SyncEvent::StepFailed(e),
    }
}

/// Drives one directory synchronization against the in-memory hosts.
fn run_dir_sync(
    src: &Host,
    dst: &mut Host,
    source_path: &str,
    dest_path: &str,
) -> Result<(), TransferError> {
    let (mut m, mut action) = DirSync::new(source_path.to_string(), dest_path.to_string());
    let mut counter: usize = 0;
    loop {
        action = match action {
            SyncAction::EnsureDir { path } => {
                let ev = ensure_dir(dst, &path);
                m.step(ev)
            },
            SyncAction::List { path } => {
                let res = src.listing(&path);
                m.step(SyncEvent::Listing(res))
            },
            SyncAction::CopyFile { src: s, dst: d } => {
                counter += 1;
                let staging = staging_path(&format!("req{}", counter));
                match run_file_transfer(src, dst, &s, &d, &staging) {
                    Ok(()) => m.step(SyncEvent::FileDone),
                    Err(e) => m.step(SyncEvent::StepFailed(e)),
                }
            },
            SyncAction::Finished => return Ok(()),
            SyncAction::Fail(e) => return Err(e),
        };
    }
}

#[test]
fn single_file_round_trip_preserves_bytes_and_mode() {
    let mut src = Host::new();
    src.files.insert(
        "/data/hello.txt".to_string(),
        (b"The quick brown fox jumps over the lazy dog".to_vec(), 0o751),
    );
    let mut dst = Host::new();
    run_file_transfer(&src, &mut dst, "/data/hello.txt", "/copy/hello.txt", "/tmp/ssh_transfer_a")
        .unwrap();
    let (bytes, mode) = dst.files.get("/copy/hello.txt").unwrap();
    assert_eq!(bytes.as_slice(), b"The quick brown fox jumps over the lazy dog");
    assert_eq!(*mode, 0o751);
    assert!(!dst.files.contains_key("/tmp/ssh_transfer_a"));
    assert_eq!(dst.elevated_calls, 0);
}

#[test]
fn undiscoverable_mode_defaults_to_644() {
    let mut src = Host::new();
    src.files.insert("/d/f".to_string(), (b"x".to_vec(), 0o600));
    let mut dst = Host::new();
    // the stat answers for a path the source does not know
    let (mut m, _) = FileTransfer::new("/d/f".to_string(), "/e/f".to_string(), "/tmp/s".to_string());
    let a = m.step(FtEvent::Command(Host::fail(1, "stat: cannot stat")));
    match a {
        FtAction::OpenStreams { .. } => {},
        _ => panic!("expected the streams to open"),
    }
    dst.files.insert("/tmp/s".to_string(), (Vec::new(), 0o600));
    match m.step(FtEvent::Chunk(b"x".to_vec())) {
        FtAction::Write(w) => dst.files.get_mut("/tmp/s").unwrap().0.extend(w),
        _ => panic!("expected the chunk to be written"),
    }
    let a = m.step(FtEvent::Eof);
    let a = match a {
        FtAction::RunDest(cmd) => {
            let res = dst.run(&cmd, false);
            m.step(FtEvent::Command(res))
        },
        _ => panic!("expected the finalize command"),
    };
    match a {
        FtAction::RunDest(RemoteCmd::SetMode { mode, .. }) => assert_eq!(mode, 0o644),
        _ => panic!("expected the chmod command"),
    }
    let _ = src;
}

#[test]
fn denied_copy_succeeds_through_escalation() {
    let mut src = Host::new();
    src.files.insert("/data/key.txt".to_string(), (b"super secret".to_vec(), 0o600));
    let mut dst = Host::new();
    dst.protected.push("/secure".to_string());
    run_file_transfer(
        &src,
        &mut dst,
        "/data/key.txt",
        "/secure/key.txt",
        "/tmp/ssh_transfer_b",
    )
    .unwrap();
    let (bytes, mode) = dst.files.get("/secure/key.txt").unwrap();
    assert_eq!(bytes.as_slice(), b"super secret");
    assert_eq!(*mode, 0o600);
    assert!(dst.elevated_calls >= 2);
    assert!(!dst.files.contains_key("/tmp/ssh_transfer_b"));
}

#[test]
fn failure_without_marker_never_escalates() {
    let mut src = Host::new();
    src.files.insert("/data/a".to_string(), (b"abc".to_vec(), 0o644));
    let mut dst = Host::new();
    dst.protected.push("/quota".to_string());
    dst.deny_message = "Disk quota exceeded".to_string();
    let e = run_file_transfer(&src, &mut dst, "/data/a", "/quota/a", "/tmp/ssh_transfer_c")
        .unwrap_err();
    match e {
        TransferError::CommandFailed { exit_code, stderr } => {
            assert_eq!(exit_code, 1);
            assert!(stderr.contains("Disk quota exceeded"));
        },
        _ => panic!("expected a command failure"),
    }
    assert_eq!(dst.elevated_calls, 0);
    assert!(!dst.files.contains_key("/quota/a"));
}

#[test]
fn failed_escalation_surfaces_the_elevation_error() {
    let mut src = Host::new();
    src.files.insert("/data/a".to_string(), (b"abc".to_vec(), 0o644));
    let mut dst = Host::new();
    let (mut m, _) =
        FileTransfer::new("/data/a".to_string(), "/x/a".to_string(), "/tmp/s2".to_string());
    let _ = m.step(FtEvent::Command(Host::ok("644")));
    let _ = m.step(FtEvent::Eof);
    let a = m.step(FtEvent::Command(Host::fail(1, "cp: Permission denied")));
    assert!(matches!(&a, FtAction::RunDestElevated(RemoteCmd::CopyFile { .. })));
    let a = m.step(FtEvent::Command(Host::fail(1, "sudo: authentication failure")));
    match a {
        FtAction::Fail(TransferError::ElevationFailed { stderr }) => {
            assert_eq!(stderr, "sudo: authentication failure");
        },
        _ => panic!("expected an elevation failure"),
    }
    let _ = (src, dst);
}

#[test]
fn missing_source_file_aborts_the_transfer() {
    let src = Host::new();
    let mut dst = Host::new();
    let e = run_file_transfer(&src, &mut dst, "/no/such", "/d/f", "/tmp/s3").unwrap_err();
    match e {
        TransferError::TransferFailed { reason } => {
            assert_eq!(reason, "cannot open source file");
        },
        _ => panic!("expected a transfer failure"),
    }
}

#[test]
fn directory_tree_is_replayed_depth_first() {
    let mut src = Host::new();
    src.dirs.insert("/src/a".to_string());
    src.dirs.insert("/src/a/sub".to_string());
    src.files.insert("/src/a/f.txt".to_string(), (b"payload".to_vec(), 0o600));
    let mut dst = Host::new();
    run_dir_sync(&src, &mut dst, "/src/a", "/dst/a").unwrap();
    assert!(dst.dirs.contains("/dst/a"));
    assert!(dst.dirs.contains("/dst/a/sub"));
    let (bytes, mode) = dst.files.get("/dst/a/f.txt").unwrap();
    assert_eq!(bytes.as_slice(), b"payload");
    assert_eq!(*mode, 0o600);
    // the empty subdirectory stays empty
    assert!(!dst.files.keys().any(|k| k.starts_with("/dst/a/sub/")));
    // nothing but the one file landed
    assert_eq!(dst.files.len(), 1);
}

#[test]
fn rerunning_a_successful_sync_changes_nothing() {
    let mut src = Host::new();
    src.dirs.insert("/src/tree".to_string());
    src.dirs.insert("/src/tree/inner".to_string());
    src.files.insert("/src/tree/a.txt".to_string(), (b"alpha".to_vec(), 0o640));
    src.files.insert("/src/tree/inner/b.txt".to_string(), (b"beta".to_vec(), 0o755));
    let mut dst = Host::new();
    run_dir_sync(&src, &mut dst, "/src/tree", "/dst/tree").unwrap();
    let after_first = dst.clone();
    run_dir_sync(&src, &mut dst, "/src/tree", "/dst/tree").unwrap();
    assert_eq!(dst, after_first);
}

#[test]
fn first_error_stops_the_walk() {
    let mut src = Host::new();
    src.dirs.insert("/src/t".to_string());
    // a listed file the source cannot actually provide
    src.files.insert("/src/t/gone".to_string(), (b"x".to_vec(), 0o644));
    let mut dst = Host::new();
    dst.protected.push("/dst".to_string());
    dst.deny_message = "Read-only file system".to_string();
    let e = run_dir_sync(&src, &mut dst, "/src/t", "/dst/t").unwrap_err();
    match e {
        TransferError::CommandFailed { stderr, .. } => {
            assert!(stderr.contains("Read-only file system"));
        },
        _ => panic!("expected the mkdir failure to stop the walk"),
    }
    assert!(dst.files.is_empty());
}

#[test]
fn listing_failure_is_reported_as_such() {
    let src = Host::new();
    let mut dst = Host::new();
    let e = run_dir_sync(&src, &mut dst, "/absent", "/dst/absent").unwrap_err();
    assert!(matches!(e, TransferError::ListFailed { exit_code: 2 }));
}

#[test]
fn protected_tree_lands_through_escalation() {
    let mut src = Host::new();
    src.dirs.insert("/src/cfg".to_string());
    src.files.insert("/src/cfg/app.conf".to_string(), (b"k=v".to_vec(), 0o600));
    let mut dst = Host::new();
    dst.protected.push("/etc".to_string());
    run_dir_sync(&src, &mut dst, "/src/cfg", "/etc/cfg").unwrap();
    let (bytes, mode) = dst.files.get("/etc/cfg/app.conf").unwrap();
    assert_eq!(bytes.as_slice(), b"k=v");
    assert_eq!(*mode, 0o600);
    assert!(dst.dirs.contains("/etc/cfg"));
    assert!(dst.elevated_calls >= 3);
}
