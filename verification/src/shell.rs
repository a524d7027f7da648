//! The closed set of typed remote operations and their rendering as shell
//! command strings. Every path argument is single-quote escaped here, in
//! one place: `'` becomes `'\''` and the whole argument is wrapped in
//! single quotes. Elevation renders a command with the password piped to
//! `sudo -S`.

use vstd::prelude::*;
use vstd::string::*;
use crate::text::{from_chars, oct_digits, push_oct, to_chars};

verus! {

/// The single-quote escaping of one character.
pub open spec fn esc1(c: char) -> Seq<char> {
    if c == '\'' {
        seq!['\'', '\\', '\'', '\'']
    } else {
        seq![c]
    }
}

/// The single-quote escaping of a whole argument, character by character.
pub open spec fn escaped(s: Seq<char>) -> Seq<char>
    decreases s.len(),
{
    if s.len() == 0 {
        s
    } else {
        esc1(s[0]) + escaped(s.drop_first())
    }
}

/// A shell-quoted argument: the escaped text wrapped in single quotes.
pub open spec fn quoted(s: Seq<char>) -> Seq<char> {
    seq!['\''] + escaped(s) + seq!['\'']
}

/// Escaping distributes over appending one character at the end.
pub proof fn lemma_escaped_snoc(s: Seq<char>, c: char)
    ensures
        escaped(s.push(c)) == escaped(s) + esc1(c),
    decreases s.len(),
{
    if s.len() == 0 {
        assert(s.push(c).drop_first() =~= s);
        assert(escaped(s.push(c)) =~= esc1(c));
        assert(escaped(s) + esc1(c) =~= esc1(c));
    } else {
        assert(s.push(c).drop_first() =~= s.drop_first().push(c));
        lemma_escaped_snoc(s.drop_first(), c);
        assert(escaped(s.push(c)) =~= escaped(s) + esc1(c));
    }
}

/// One remote operation of the transfer core, with parameterized
/// arguments; rendering is the only place a shell string is built.
pub enum RemoteCmd {
    /// Long-format listing of one directory.
    ListDir { path: String },
    /// Query a file's octal permission bits.
    StatMode { path: String },
    /// Query a file's kind and byte size, with a fixed fallback word on
    /// failure.
    StatInfo { path: String },
    /// Resolve a symbolic link's target.
    ReadLink { path: String },
    /// Query a file's MIME type.
    MimeType { path: String },
    /// Human-readable description of a file's content.
    Describe { path: String },
    /// Read a file's text content.
    ReadFile { path: String },
    /// Create a directory and its parents.
    MakeDirAll { path: String },
    /// Create an empty file.
    CreateEmpty { path: String },
    /// Remove one file.
    RemoveFile { path: String },
    /// Remove a directory tree.
    RemoveTree { path: String },
    /// Rename a file or directory.
    Rename { from: String, to: String },
    /// Copy one file, leaving the source in place.
    CopyFile { from: String, to: String },
    /// Finalize a staged transfer: copy the staged bytes to the final
    /// path, then remove the staging file.
    FinalizeCopy { staging: String, dest: String },
    /// Apply permission bits to a path.
    SetMode { path: String, mode: u32 },
    /// Write text through a staging file to a final path.
    StoreText { staging: String, dest: String, content: String },
    /// Write text to a path through elevated `tee`.
    TeeText { dest: String, content: String },
}

/// The shell string each operation renders to.
pub open spec fn spec_render(cmd: RemoteCmd) -> Seq<char> {
    match cmd {
        RemoteCmd::ListDir { path } => "ls -la "@ + quoted(path@),
        RemoteCmd::StatMode { path } => "stat -c '%a' "@ + quoted(path@),
        RemoteCmd::StatInfo { path } => "stat -c '%F|%s' "@ + quoted(path@)
            + " 2>/dev/null || echo 'error'"@,
        RemoteCmd::ReadLink { path } => "readlink "@ + quoted(path@),
        RemoteCmd::MimeType { path } => "file -b --mime-type "@ + quoted(path@),
        RemoteCmd::Describe { path } => "file -b "@ + quoted(path@),
        RemoteCmd::ReadFile { path } => "cat "@ + quoted(path@),
        RemoteCmd::MakeDirAll { path } => "mkdir -p "@ + quoted(path@),
        RemoteCmd::CreateEmpty { path } => "touch "@ + quoted(path@),
        RemoteCmd::RemoveFile { path } => "rm "@ + quoted(path@),
        RemoteCmd::RemoveTree { path } => "rm -rf "@ + quoted(path@),
        RemoteCmd::Rename { from, to } => "mv "@ + quoted(from@) + " "@ + quoted(to@),
        RemoteCmd::CopyFile { from, to } => "cp "@ + quoted(from@) + " "@ + quoted(to@),
        RemoteCmd::FinalizeCopy { staging, dest } => "cp "@ + quoted(staging@) + " "@ + quoted(
            dest@,
        ) + " && rm "@ + quoted(staging@),
        RemoteCmd::SetMode { path, mode } => "chmod "@ + oct_digits(mode as nat) + " "@ + quoted(
            path@,
        ),
        RemoteCmd::StoreText { staging, dest, content } => "echo "@ + quoted(content@) + " > "@
            + quoted(staging@) + " && cp "@ + quoted(staging@) + " "@ + quoted(dest@) + " && rm "@
            + quoted(staging@),
        RemoteCmd::TeeText { dest, content } => "echo "@ + quoted(content@) + " | sudo tee "@
            + quoted(dest@) + " > /dev/null"@,
    }
}

/// The elevated rendering: the password piped to `sudo -S` ahead of the
/// plain command.
pub open spec fn spec_render_elevated(cmd: RemoteCmd, password: Seq<char>) -> Seq<char> {
    "echo "@ + quoted(password) + " | sudo -S "@ + spec_render(cmd)
}

/// Appends the characters of `s` to `v`.
pub fn push_str_chars(v: &mut Vec<char>, s: &str)
    ensures
        final(v)@ == old(v)@ + s@,
{
    let mut c = to_chars(s);
    v.append(&mut c);
}

/// Appends the shell-quoted form of `s` to `v`.
pub fn push_quoted(v: &mut Vec<char>, s: &str)
    ensures
        final(v)@ == old(v)@ + quoted(s@),
{
    let chars = to_chars(s);
    let n = chars.len();
    v.push('\'');
    let mut i: usize = 0;
    while i < n
        invariant
            i <= n,
            n == chars@.len(),
            chars@ == s@,
            v@ == old(v)@ + seq!['\''] + escaped(s@.subrange(0, i as int)),
        decreases n - i,
    {
        let c = chars[i];
        if c == '\'' {
            v.push('\'');
            v.push('\\');
            v.push('\'');
            v.push('\'');
        } else {
            v.push(c);
        }
        proof {
            lemma_escaped_snoc(s@.subrange(0, i as int), s@[i as int]);
            assert(s@.subrange(0, i + 1 as int) =~= s@.subrange(0, i as int).push(s@[i as int]));
            assert(v@ =~= old(v)@ + seq!['\''] + escaped(s@.subrange(0, i + 1 as int)));
        }
        i += 1;
    }
    v.push('\'');
    assert(s@.subrange(0, n as int) =~= s@);
    assert(v@ =~= old(v)@ + quoted(s@));
}

/// Renders one operation as its shell command string.
pub fn render(cmd: &RemoteCmd) -> (r: String)
    ensures
        r@ == spec_render(*cmd),
{
    let mut v: Vec<char> = Vec::new();
    match cmd {
        RemoteCmd::ListDir { path } => {
            push_str_chars(&mut v, "ls -la ");
            push_quoted(&mut v, path.as_str());
        },
        RemoteCmd::StatMode { path } => {
            push_str_chars(&mut v, "stat -c '%a' ");
            push_quoted(&mut v, path.as_str());
        },
        RemoteCmd::StatInfo { path } => {
            push_str_chars(&mut v, "stat -c '%F|%s' ");
            push_quoted(&mut v, path.as_str());
            push_str_chars(&mut v, " 2>/dev/null || echo 'error'");
        },
        RemoteCmd::ReadLink { path } => {
            push_str_chars(&mut v, "readlink ");
            push_quoted(&mut v, path.as_str());
        },
        RemoteCmd::MimeType { path } => {
            push_str_chars(&mut v, "file -b --mime-type ");
            push_quoted(&mut v, path.as_str());
        },
        RemoteCmd::Describe { path } => {
            push_str_chars(&mut v, "file -b ");
            push_quoted(&mut v, path.as_str());
        },
        RemoteCmd::ReadFile { path } => {
            push_str_chars(&mut v, "cat ");
            push_quoted(&mut v, path.as_str());
        },
        RemoteCmd::MakeDirAll { path } => {
            push_str_chars(&mut v, "mkdir -p ");
            push_quoted(&mut v, path.as_str());
        },
        RemoteCmd::CreateEmpty { path } => {
            push_str_chars(&mut v, "touch ");
            push_quoted(&mut v, path.as_str());
        },
        RemoteCmd::RemoveFile { path } => {
            push_str_chars(&mut v, "rm ");
            push_quoted(&mut v, path.as_str());
        },
        RemoteCmd::RemoveTree { path } => {
            push_str_chars(&mut v, "rm -rf ");
            push_quoted(&mut v, path.as_str());
        },
        RemoteCmd::Rename { from, to } => {
            push_str_chars(&mut v, "mv ");
            push_quoted(&mut v, from.as_str());
            push_str_chars(&mut v, " ");
            push_quoted(&mut v, to.as_str());
        },
        RemoteCmd::CopyFile { from, to } => {
            push_str_chars(&mut v, "cp ");
            push_quoted(&mut v, from.as_str());
            push_str_chars(&mut v, " ");
            push_quoted(&mut v, to.as_str());
        },
        RemoteCmd::FinalizeCopy { staging, dest } => {
            push_str_chars(&mut v, "cp ");
            push_quoted(&mut v, staging.as_str());
            push_str_chars(&mut v, " ");
            push_quoted(&mut v, dest.as_str());
            push_str_chars(&mut v, " && rm ");
            push_quoted(&mut v, staging.as_str());
        },
        RemoteCmd::SetMode { path, mode } => {
            push_str_chars(&mut v, "chmod ");
            push_oct(&mut v, *mode);
            push_str_chars(&mut v, " ");
            push_quoted(&mut v, path.as_str());
        },
        RemoteCmd::StoreText { staging, dest, content } => {
            push_str_chars(&mut v, "echo ");
            push_quoted(&mut v, content.as_str());
            push_str_chars(&mut v, " > ");
            push_quoted(&mut v, staging.as_str());
            push_str_chars(&mut v, " && cp ");
            push_quoted(&mut v, staging.as_str());
            push_str_chars(&mut v, " ");
            push_quoted(&mut v, dest.as_str());
            push_str_chars(&mut v, " && rm ");
            push_quoted(&mut v, staging.as_str());
        },
        RemoteCmd::TeeText { dest, content } => {
            push_str_chars(&mut v, "echo ");
            push_quoted(&mut v, content.as_str());
            push_str_chars(&mut v, " | sudo tee ");
            push_quoted(&mut v, dest.as_str());
            push_str_chars(&mut v, " > /dev/null");
        },
    }
    assert(v@ =~= spec_render(*cmd));
    from_chars(&v)
}

/// Renders the elevated form of an operation, with the password quoted
/// and piped to `sudo -S`.
pub fn render_elevated(cmd: &RemoteCmd, password: &str) -> (r: String)
    ensures
        r@ == spec_render_elevated(*cmd, password@),
{
    let mut v: Vec<char> = Vec::new();
    push_str_chars(&mut v, "echo ");
    push_quoted(&mut v, password);
    push_str_chars(&mut v, " | sudo -S ");
    let plain = render(cmd);
    push_str_chars(&mut v, plain.as_str());
    assert(v@ =~= spec_render_elevated(*cmd, password@));
    from_chars(&v)
}

} // verus!
