//! One file's transfer: discover the source permission bits (best-effort,
//! defaulting to mode 644), stream the bytes to a staging path on the
//! destination, finalize with a copy-then-remove command under the
//! privileged retry, and apply the permission bits, again under the
//! privileged retry. The machine here makes every decision; the caller
//! performs the I/O each action asks for and reports the outcome as the
//! next event.

use vstd::prelude::*;
use vstd::string::*;
use crate::command::{spec_denied, spec_escalates, CommandResult};
use crate::endpoint::SshConnectionInfo;
use crate::errors::TransferError;
use crate::model::{apply_step, model_file, put_file, ModelHost};
use crate::shell::RemoteCmd;
use crate::text::{from_chars, to_chars, trim_chars, trimmed};

verus! {

/// The unit of work of one top-level invocation.
pub struct FileTransferRequest {
    pub source_connection: SshConnectionInfo,
    pub destination_connection: SshConnectionInfo,
    pub file_path: String,
    pub is_folder: bool,
    pub destination_path: String,
}

/// An octal digit.
pub open spec fn is_oct_digit(c: char) -> bool {
    48 <= c as u32 <= 55
}

/// The value of one octal digit.
pub open spec fn oct_digit_val(c: char) -> int {
    c as u32 - 48
}

/// Whether every character is an octal digit.
pub open spec fn all_oct_digits(s: Seq<char>) -> bool {
    forall|i: int| 0 <= i < s.len() ==> is_oct_digit(#[trigger] s[i])
}

/// The numeric value of an octal digit string.
pub open spec fn oct_val(s: Seq<char>) -> int
    decreases s.len(),
{
    if s.len() == 0 {
        0
    } else {
        oct_val(s.drop_last()) * 8 + oct_digit_val(s[s.len() - 1])
    }
}

/// The mode a stat output parses to, when its trimmed text is a non-empty
/// octal number in range.
pub open spec fn spec_parsed_mode(stdout: Seq<char>) -> Option<int> {
    let t = trimmed(stdout);
    if t.len() > 0 && all_oct_digits(t) && oct_val(t) <= u32::MAX {
        Some(oct_val(t))
    } else {
        None
    }
}

/// The permission bits used for a transfer: the parsed stat output when
/// the command succeeded and parsed, and mode 644 otherwise. Permission
/// discovery is best-effort by design.
pub open spec fn spec_mode_from_stat(exit_code: int, stdout: Seq<char>) -> int {
    if exit_code == 0 {
        match spec_parsed_mode(stdout) {
            Some(m) => m,
            None => 0o644,
        }
    } else {
        0o644
    }
}

/// The value of an all-digit string is at least zero.
proof fn lemma_oct_nonneg(s: Seq<char>)
    requires
        all_oct_digits(s),
    ensures
        oct_val(s) >= 0,
    decreases s.len(),
{
    if s.len() > 0 {
        assert(all_oct_digits(s.drop_last())) by {
            assert(forall|i: int| 0 <= i < s.len() - 1 ==> s.drop_last()[i] == s[i]);
        }
        lemma_oct_nonneg(s.drop_last());
    }
}

/// A prefix of an all-digit string never exceeds the whole value.
proof fn lemma_oct_prefix(s: Seq<char>, k: int)
    requires
        all_oct_digits(s),
        0 <= k <= s.len(),
    ensures
        0 <= oct_val(s.subrange(0, k)) <= oct_val(s),
    decreases s.len() - k,
{
    assert(all_oct_digits(s.subrange(0, k))) by {
        assert(forall|i: int| 0 <= i < k ==> s.subrange(0, k)[i] == s[i]);
    }
    lemma_oct_nonneg(s.subrange(0, k));
    if k == s.len() {
        assert(s.subrange(0, k) =~= s);
    } else {
        assert(s.subrange(0, k + 1).drop_last() =~= s.subrange(0, k));
        assert(s.subrange(0, k + 1)[k] == s[k]);
        assert(oct_val(s.subrange(0, k + 1)) == oct_val(s.subrange(0, k)) * 8 + oct_digit_val(
            s[k],
        ));
        lemma_oct_prefix(s, k + 1);
    }
}

/// Reads the permission bits out of a stat result, defaulting to mode 644
/// whenever the command failed or its output does not parse as octal.
pub fn mode_from_stat(r: &CommandResult) -> (m: u32)
    ensures
        m as int == spec_mode_from_stat(r.exit_code as int, r.stdout@),
{
    if r.exit_code != 0 {
        return 0o644;
    }
    let chars = to_chars(r.stdout.as_str());
    let t = trim_chars(&chars);
    let n = t.len();
    if n == 0 {
        return 0o644;
    }
    let mut acc: u64 = 0;
    let mut k: usize = 0;
    while k < n
        invariant
            k <= n,
            n == t@.len(),
            t@ == trimmed(r.stdout@),
            forall|i: int| 0 <= i < k ==> is_oct_digit(#[trigger] t@[i]),
            acc as int == oct_val(t@.subrange(0, k as int)),
            acc <= u32::MAX,
        decreases n - k,
    {
        let c = t[k];
        let u = c as u32;
        if u < 48 || u > 55 {
            return 0o644;
        }
        proof {
            assert(t@.subrange(0, k + 1 as int).drop_last() =~= t@.subrange(0, k as int));
            assert(t@.subrange(0, k + 1 as int)[k as int] == t@[k as int]);
        }
        acc = acc * 8 + ((u - 48) as u64);
        if acc > 0xFFFF_FFFF {
            proof {
                if all_oct_digits(t@) {
                    lemma_oct_prefix(t@, k + 1);
                }
            }
            return 0o644;
        }
        k += 1;
    }
    proof {
        assert(t@.subrange(0, n as int) =~= t@);
    }
    acc as u32
}

/// The staging path for one transfer, derived from a token unique to the
/// in-flight request so that concurrent transfers cannot collide.
pub fn staging_path(token: &str) -> (r: String)
    ensures
        r@ == "/tmp/ssh_transfer_"@ + token@,
{
    let mut v = to_chars("/tmp/ssh_transfer_");
    let mut t = to_chars(token);
    v.append(&mut t);
    from_chars(&v)
}

/// The message reported after a whole transfer succeeds.
pub fn transfer_success_message(is_folder: bool, path: &str) -> (r: String)
    ensures
        is_folder ==> r@ == "Folder '"@ + path@ + "' copied successfully"@,
        !is_folder ==> r@ == "File '"@ + path@ + "' copied successfully"@,
{
    let head = if is_folder {
        String::from_str("Folder '")
    } else {
        String::from_str("File '")
    };
    head.concat(path).concat("' copied successfully")
}

/// Where one file transfer stands.
pub enum FtPhase {
    /// Awaiting the stat of the source file's permission bits.
    AwaitStat,
    /// Relaying chunks from the source file to the staging file.
    Streaming,
    /// Awaiting the plain copy-then-remove finalize command.
    AwaitFinalize,
    /// Awaiting the elevated copy after a permission-denied finalize.
    AwaitElevatedCopy,
    /// Awaiting the best-effort removal of the staging file.
    AwaitCleanup,
    /// Awaiting the plain chmod of the final path.
    AwaitChmod,
    /// Awaiting the elevated chmod after a permission-denied chmod.
    AwaitElevatedChmod,
    /// The file is in place with its permission bits applied.
    Complete,
    /// The transfer failed; no further step is taken.
    Failed,
}

/// What the caller reports back to the machine.
pub enum FtEvent {
    /// A requested remote command finished with this result.
    Command(CommandResult),
    /// One chunk was read from the source file.
    Chunk(Vec<u8>),
    /// The source file is exhausted.
    Eof,
    /// Opening, reading or writing a stream failed.
    IoError(String),
}

/// What the caller must do next.
pub enum FtAction {
    /// Run a command on the source session.
    RunSource(RemoteCmd),
    /// Open the source file for reading and the staging file for writing.
    OpenStreams { source: String, staging: String },
    /// Write this chunk to the staging file, then read the next chunk.
    Write(Vec<u8>),
    /// Run a command on the destination session.
    RunDest(RemoteCmd),
    /// Run a command on the destination session, elevated with the
    /// destination password.
    RunDestElevated(RemoteCmd),
    /// The transfer is complete.
    Finished,
    /// The transfer failed with this error.
    Fail(TransferError),
}

/// The step machine for one file's transfer.
pub struct FileTransfer {
    pub source_path: String,
    pub dest_path: String,
    pub staging: String,
    pub mode: u32,
    pub phase: FtPhase,
    /// Every byte relayed to the staging file so far, in order.
    pub relayed: Ghost<Seq<u8>>,
}

impl FileTransfer {
    /// Starts a transfer: the first action stats the source file's
    /// permission bits on the source session.
    pub fn new(source_path: String, dest_path: String, staging: String) -> (r: (
        FileTransfer,
        FtAction,
    ))
        ensures
            r.0.phase is AwaitStat,
            r.0.source_path@ == source_path@,
            r.0.dest_path@ == dest_path@,
            r.0.staging@ == staging@,
            r.0.relayed@ == Seq::<u8>::empty(),
            r.1 matches FtAction::RunSource(c) && (c matches RemoteCmd::StatMode { path } && path@
                == source_path@),
    {
        let cmd = RemoteCmd::StatMode { path: source_path.clone() };
        let m = FileTransfer {
            source_path,
            dest_path,
            staging,
            mode: 0o644,
            phase: FtPhase::AwaitStat,
            relayed: Ghost(Seq::<u8>::empty()),
        };
        (m, FtAction::RunSource(cmd))
    }

    /// Feeds the machine one event and yields the next action. The event
    /// must answer the pending action: a command result everywhere except
    /// while streaming, where chunks, end of stream, or an I/O failure
    /// are expected.
    pub fn step(&mut self, e: FtEvent) -> (r: FtAction)
        requires
            !(old(self).phase is Complete),
            !(old(self).phase is Failed),
            old(self).phase is Streaming ==> !(e is Command),
            !(old(self).phase is Streaming) ==> e is Command,
        ensures
            final(self).source_path == old(self).source_path,
            final(self).dest_path == old(self).dest_path,
            final(self).staging == old(self).staging,
            !(old(self).phase is AwaitStat) ==> final(self).mode == old(self).mode,
            !(old(self).phase is Streaming) || !(e is Chunk) ==> final(self).relayed@ == old(self).relayed@,
            // permission discovery, then stream
            old(self).phase is AwaitStat ==> (e matches FtEvent::Command(res) ==> (final(self).phase is Streaming && final(self).mode as int == spec_mode_from_stat(
                res.exit_code as int,
                res.stdout@,
            ) && (r matches FtAction::OpenStreams { source, staging } && source@ == old(self).source_path@ && staging@ == old(self).staging@))),
            // each chunk read is written whole, in order, before the next
            old(self).phase is Streaming ==> (e matches FtEvent::Chunk(data) ==> (final(self).phase is Streaming && final(self).relayed@ == old(self).relayed@ + data@ && (r
                matches FtAction::Write(w) && w@ == data@))),
            // end of stream: finalize with copy-then-remove on the destination
            old(self).phase is Streaming ==> (e is Eof ==> (final(self).phase is AwaitFinalize && (
            r matches FtAction::RunDest(c) && (c matches RemoteCmd::FinalizeCopy {
                staging,
                dest,
            } && staging@ == old(self).staging@ && dest@ == old(self).dest_path@)))),
            // a stream failure aborts this file
            old(self).phase is Streaming ==> (e matches FtEvent::IoError(m) ==> (final(self).phase is Failed && (r matches FtAction::Fail(err) && (err matches
                TransferError::TransferFailed { reason } && reason@ == m@)))),
            // finalize accepted: apply the permission bits
            old(self).phase is AwaitFinalize ==> (e matches FtEvent::Command(res) ==> (
            res.exit_code == 0 ==> (final(self).phase is AwaitChmod && (r matches
                FtAction::RunDest(c) && (c matches RemoteCmd::SetMode { path, mode } && path@
                == old(self).dest_path@ && mode == old(self).mode))))),
            // finalize denied: re-issue the copy elevated
            old(self).phase is AwaitFinalize ==> (e matches FtEvent::Command(res) ==> (
            spec_escalates(res.exit_code as int, res.stderr@) ==> (final(self).phase is AwaitElevatedCopy && (r matches FtAction::RunDestElevated(c) && (c matches
                RemoteCmd::CopyFile { from, to } && from@ == old(self).staging@ && to@ == old(self).dest_path@))))),
            // finalize failed otherwise: no retry
            old(self).phase is AwaitFinalize ==> (e matches FtEvent::Command(res) ==> (
            res.exit_code != 0 && !spec_denied(res.stderr@) ==> (final(self).phase is Failed && (r
                matches FtAction::Fail(err) && (err matches TransferError::CommandFailed {
                exit_code,
                stderr,
            } && exit_code == res.exit_code && stderr@ == res.stderr@))))),
            // elevated copy accepted: remove the staging file, best-effort
            old(self).phase is AwaitElevatedCopy ==> (e matches FtEvent::Command(res) ==> (
            res.exit_code == 0 ==> (final(self).phase is AwaitCleanup && (r matches
                FtAction::RunDest(c) && (c matches RemoteCmd::RemoveFile { path } && path@ == old(self).staging@))))),
            // elevated copy failed: the escalation itself failed
            old(self).phase is AwaitElevatedCopy ==> (e matches FtEvent::Command(res) ==> (
            res.exit_code != 0 ==> (final(self).phase is Failed && (r matches FtAction::Fail(err)
                && (err matches TransferError::ElevationFailed { stderr } && stderr@
                == res.stderr@))))),
            // cleanup result is ignored; apply the permission bits
            old(self).phase is AwaitCleanup ==> (final(self).phase is AwaitChmod && (r matches
                FtAction::RunDest(c) && (c matches RemoteCmd::SetMode { path, mode } && path@
                == old(self).dest_path@ && mode == old(self).mode))),
            // chmod accepted: done
            old(self).phase is AwaitChmod ==> (e matches FtEvent::Command(res) ==> (res.exit_code
                == 0 ==> (final(self).phase is Complete && r is Finished))),
            // chmod denied: re-issue it elevated
            old(self).phase is AwaitChmod ==> (e matches FtEvent::Command(res) ==> (spec_escalates(
                res.exit_code as int,
                res.stderr@,
            ) ==> (final(self).phase is AwaitElevatedChmod && (r matches FtAction::RunDestElevated(
                c,
            ) && (c matches RemoteCmd::SetMode { path, mode } && path@ == old(self).dest_path@
                && mode == old(self).mode))))),
            // chmod failed otherwise: no retry
            old(self).phase is AwaitChmod ==> (e matches FtEvent::Command(res) ==> (res.exit_code
                != 0 && !spec_denied(res.stderr@) ==> (final(self).phase is Failed && (r matches
                FtAction::Fail(err) && (err matches TransferError::CommandFailed {
                exit_code,
                stderr,
            } && exit_code == res.exit_code && stderr@ == res.stderr@))))),
            // elevated chmod: done on success, elevation failure otherwise
            old(self).phase is AwaitElevatedChmod ==> (e matches FtEvent::Command(res) ==> (
            res.exit_code == 0 ==> (final(self).phase is Complete && r is Finished))),
            old(self).phase is AwaitElevatedChmod ==> (e matches FtEvent::Command(res) ==> (
            res.exit_code != 0 ==> (final(self).phase is Failed && (r matches FtAction::Fail(err)
                && (err matches TransferError::ElevationFailed { stderr } && stderr@
                == res.stderr@))))),
            // completion and failure are reached nowhere else
            final(self).phase is Complete ==> (old(self).phase is AwaitChmod || old(self).phase is AwaitElevatedChmod),
            (r is Finished) <==> final(self).phase is Complete,
            (r is Fail) <==> final(self).phase is Failed,
    {
        match self.phase {
            FtPhase::AwaitStat => {
                match e {
                    FtEvent::Command(res) => {
                        self.mode = mode_from_stat(&res);
                        self.phase = FtPhase::Streaming;
                        FtAction::OpenStreams {
                            source: self.source_path.clone(),
                            staging: self.staging.clone(),
                        }
                    },
                    _ => vstd::pervasive::unreached(),
                }
            },
            FtPhase::Streaming => {
                match e {
                    FtEvent::Chunk(data) => {
                        let ghost prior = self.relayed@;
                        self.relayed = Ghost(prior + data@);
                        FtAction::Write(data)
                    },
                    FtEvent::Eof => {
                        self.phase = FtPhase::AwaitFinalize;
                        FtAction::RunDest(
                            RemoteCmd::FinalizeCopy {
                                staging: self.staging.clone(),
                                dest: self.dest_path.clone(),
                            },
                        )
                    },
                    FtEvent::IoError(m) => {
                        self.phase = FtPhase::Failed;
                        FtAction::Fail(TransferError::TransferFailed { reason: m })
                    },
                    FtEvent::Command(_) => vstd::pervasive::unreached(),
                }
            },
            FtPhase::AwaitFinalize => {
                match e {
                    FtEvent::Command(res) => {
                        match crate::command::judge_plain(&res) {
                            crate::command::MutationOutcome::Done => {
                                self.phase = FtPhase::AwaitChmod;
                                FtAction::RunDest(
                                    RemoteCmd::SetMode {
                                        path: self.dest_path.clone(),
                                        mode: self.mode,
                                    },
                                )
                            },
                            crate::command::MutationOutcome::Escalate => {
                                self.phase = FtPhase::AwaitElevatedCopy;
                                FtAction::RunDestElevated(
                                    RemoteCmd::CopyFile {
                                        from: self.staging.clone(),
                                        to: self.dest_path.clone(),
                                    },
                                )
                            },
                            crate::command::MutationOutcome::Fail(err) => {
                                self.phase = FtPhase::Failed;
                                FtAction::Fail(err)
                            },
                        }
                    },
                    _ => vstd::pervasive::unreached(),
                }
            },
            FtPhase::AwaitElevatedCopy => {
                match e {
                    FtEvent::Command(res) => {
                        if res.exit_code == 0 {
                            self.phase = FtPhase::AwaitCleanup;
                            FtAction::RunDest(RemoteCmd::RemoveFile { path: self.staging.clone() })
                        } else {
                            self.phase = FtPhase::Failed;
                            FtAction::Fail(
                                TransferError::ElevationFailed { stderr: res.stderr },
                            )
                        }
                    },
                    _ => vstd::pervasive::unreached(),
                }
            },
            FtPhase::AwaitCleanup => {
                self.phase = FtPhase::AwaitChmod;
                FtAction::RunDest(
                    RemoteCmd::SetMode { path: self.dest_path.clone(), mode: self.mode },
                )
            },
            FtPhase::AwaitChmod => {
                match e {
                    FtEvent::Command(res) => {
                        match crate::command::judge_plain(&res) {
                            crate::command::MutationOutcome::Done => {
                                self.phase = FtPhase::Complete;
                                FtAction::Finished
                            },
                            crate::command::MutationOutcome::Escalate => {
                                self.phase = FtPhase::AwaitElevatedChmod;
                                FtAction::RunDestElevated(
                                    RemoteCmd::SetMode {
                                        path: self.dest_path.clone(),
                                        mode: self.mode,
                                    },
                                )
                            },
                            crate::command::MutationOutcome::Fail(err) => {
                                self.phase = FtPhase::Failed;
                                FtAction::Fail(err)
                            },
                        }
                    },
                    _ => vstd::pervasive::unreached(),
                }
            },
            FtPhase::AwaitElevatedChmod => {
                match e {
                    FtEvent::Command(res) => {
                        if res.exit_code == 0 {
                            self.phase = FtPhase::Complete;
                            FtAction::Finished
                        } else {
                            self.phase = FtPhase::Failed;
                            FtAction::Fail(
                                TransferError::ElevationFailed { stderr: res.stderr },
                            )
                        }
                    },
                    _ => vstd::pervasive::unreached(),
                }
            },
            FtPhase::Complete | FtPhase::Failed => vstd::pervasive::unreached(),
        }
    }
}

/// The round-trip law at the machine: a completed transfer staged exactly
/// the bytes it relayed, copied them to the destination path and applied
/// the discovered mode, so on any destination host its effect leaves that
/// path holding exactly those bytes under that mode, with the staging
/// file gone.
pub proof fn lemma_completed_transfer_round_trip(m: FileTransfer, h: ModelHost)
    requires
        m.phase is Complete,
        m.staging@ != m.dest_path@,
    ensures
        apply_step(h, put_file(m.staging@, m.dest_path@, m.relayed@, m.mode)).files.contains_key(
            m.dest_path@,
        ),
        apply_step(h, put_file(m.staging@, m.dest_path@, m.relayed@, m.mode)).files[m.dest_path@]
            == model_file(m.relayed@, m.mode),
        !apply_step(h, put_file(m.staging@, m.dest_path@, m.relayed@, m.mode)).files.contains_key(
            m.staging@,
        ),
{
    crate::model::lemma_file_round_trip(h, m.staging@, m.dest_path@, m.relayed@, m.mode);
}

} // verus!
