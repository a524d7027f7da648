use sshsync::shell::{render, render_elevated, RemoteCmd};

#[test]
fn plain_paths_are_single_quoted() {
    let cmd = RemoteCmd::ListDir { path: "/home/u".to_string() };
    assert_eq!(render(&cmd), "ls -la '/home/u'");
}

#[test]
fn embedded_quote_is_escaped() {
    let cmd = RemoteCmd::RemoveFile { path: "it's".to_string() };
    assert_eq!(render(&cmd), "rm 'it'\\''s'");
}

#[test]
fn stat_and_introspection_commands() {
    assert_eq!(
        render(&RemoteCmd::StatMode { path: "/a/f".to_string() }),
        "stat -c '%a' '/a/f'"
    );
    assert_eq!(
        render(&RemoteCmd::StatInfo { path: "/a/f".to_string() }),
        "stat -c '%F|%s' '/a/f' 2>/dev/null || echo 'error'"
    );
    assert_eq!(render(&RemoteCmd::ReadLink { path: "/a/l".to_string() }), "readlink '/a/l'");
    assert_eq!(
        render(&RemoteCmd::MimeType { path: "/a/f".to_string() }),
        "file -b --mime-type '/a/f'"
    );
    assert_eq!(render(&RemoteCmd::Describe { path: "/a/f".to_string() }), "file -b '/a/f'");
    assert_eq!(render(&RemoteCmd::ReadFile { path: "/a/f".to_string() }), "cat '/a/f'");
}

#[test]
fn mutation_commands() {
    assert_eq!(render(&RemoteCmd::MakeDirAll { path: "/a/b".to_string() }), "mkdir -p '/a/b'");
    assert_eq!(render(&RemoteCmd::CreateEmpty { path: "/a/f".to_string() }), "touch '/a/f'");
    assert_eq!(render(&RemoteCmd::RemoveTree { path: "/a/b".to_string() }), "rm -rf '/a/b'");
    assert_eq!(
        render(&RemoteCmd::Rename { from: "/a/x".to_string(), to: "/a/y".to_string() }),
        "mv '/a/x' '/a/y'"
    );
    assert_eq!(
        render(&RemoteCmd::CopyFile { from: "/t/s".to_string(), to: "/a/f".to_string() }),
        "cp '/t/s' '/a/f'"
    );
    assert_eq!(
        render(&RemoteCmd::FinalizeCopy {
            staging: "/tmp/s".to_string(),
            dest: "/a/f".to_string()
        }),
        "cp '/tmp/s' '/a/f' && rm '/tmp/s'"
    );
}

#[test]
fn chmod_renders_octal_digits() {
    assert_eq!(
        render(&RemoteCmd::SetMode { path: "/a/f".to_string(), mode: 0o600 }),
        "chmod 600 '/a/f'"
    );
    assert_eq!(
        render(&RemoteCmd::SetMode { path: "/a/f".to_string(), mode: 0o644 }),
        "chmod 644 '/a/f'"
    );
    assert_eq!(
        render(&RemoteCmd::SetMode { path: "/a/f".to_string(), mode: 0o7777 }),
        "chmod 7777 '/a/f'"
    );
}

#[test]
fn text_store_and_tee() {
    assert_eq!(
        render(&RemoteCmd::StoreText {
            staging: "/tmp/e1".to_string(),
            dest: "/etc/m".to_string(),
            content: "hello".to_string()
        }),
        "echo 'hello' > '/tmp/e1' && cp '/tmp/e1' '/etc/m' && rm '/tmp/e1'"
    );
    assert_eq!(
        render(&RemoteCmd::TeeText { dest: "/etc/m".to_string(), content: "hi".to_string() }),
        "echo 'hi' | sudo tee '/etc/m' > /dev/null"
    );
}

#[test]
fn elevation_pipes_the_quoted_password() {
    let cmd = RemoteCmd::MakeDirAll { path: "/opt/x".to_string() };
    assert_eq!(render_elevated(&cmd, "pw"), "echo 'pw' | sudo -S mkdir -p '/opt/x'");
    assert_eq!(
        render_elevated(&cmd, "p'w"),
        "echo 'p'\\''w' | sudo -S mkdir -p '/opt/x'"
    );
}
