//! Remote command results and the privileged-retry decision. A non-zero
//! exit is not itself an error at the runner layer; the decision here is
//! whether to re-issue a failed mutation with elevated privileges (when the
//! stderr carries a case-insensitive permission-denied marker), to report
//! it as a plain command failure, or to accept it.

use vstd::prelude::*;
use vstd::string::*;
use crate::errors::TransferError;
use crate::text::{contains_sub, is_substring_of, lower, lower_chars, to_chars};

verus! {

/// The captured outcome of one remote shell command.
pub struct CommandResult {
    pub stdout: String,
    pub stderr: String,
    pub exit_code: i32,
}

/// True when the stderr text carries the permission-denied marker, matched
/// case-insensitively as a substring.
pub open spec fn spec_denied(stderr: Seq<char>) -> bool {
    is_substring_of("permission denied"@, lower(stderr))
}

/// A failed mutation escalates exactly when its stderr carries the
/// permission-denied marker.
pub open spec fn spec_escalates(exit_code: int, stderr: Seq<char>) -> bool {
    exit_code != 0 && spec_denied(stderr)
}

/// Whether the whole privileged-retry of a mutation succeeds, given the
/// plain result and, when an elevated retry was issued, its exit code.
pub open spec fn spec_mutation_succeeds(
    exit_code: int,
    stderr: Seq<char>,
    elevated_exit: Option<int>,
) -> bool {
    if exit_code == 0 {
        true
    } else if spec_denied(stderr) {
        elevated_exit == Some(0int)
    } else {
        false
    }
}

/// Tests stderr for the case-insensitive permission-denied marker.
pub fn is_permission_denied(stderr: &str) -> (r: bool)
    ensures
        r == spec_denied(stderr@),
{
    let hay = to_chars(stderr);
    let hay_lower = lower_chars(&hay);
    let needle = to_chars("permission denied");
    contains_sub(&hay_lower, &needle)
}

/// What to do after the plain attempt of a remote mutation.
pub enum MutationOutcome {
    /// The command exited zero; the mutation is done.
    Done,
    /// The command failed with a permission-denied marker: re-issue it
    /// elevated.
    Escalate,
    /// The command failed for another reason: report it, no retry.
    Fail(TransferError),
}

/// Judges the plain attempt of a mutation: accept exit zero, escalate a
/// permission-denied failure, and report any other failure unchanged.
pub fn judge_plain(r: &CommandResult) -> (o: MutationOutcome)
    ensures
        r.exit_code == 0 ==> o is Done,
        spec_escalates(r.exit_code as int, r.stderr@) ==> o is Escalate,
        r.exit_code != 0 && !spec_denied(r.stderr@) ==> (o matches MutationOutcome::Fail(e)
            && (e matches TransferError::CommandFailed { exit_code, stderr } && exit_code
            == r.exit_code && stderr@ == r.stderr@)),
{
    if r.exit_code == 0 {
        MutationOutcome::Done
    } else if is_permission_denied(r.stderr.as_str()) {
        MutationOutcome::Escalate
    } else {
        MutationOutcome::Fail(
            TransferError::CommandFailed { exit_code: r.exit_code, stderr: r.stderr.clone() },
        )
    }
}

/// Judges the elevated retry of a mutation: accept exit zero, and report
/// anything else as a failure of the escalation itself.
pub fn judge_elevated(r: &CommandResult) -> (o: MutationOutcome)
    ensures
        r.exit_code == 0 ==> o is Done,
        r.exit_code != 0 ==> (o matches MutationOutcome::Fail(e) && (e matches
            TransferError::ElevationFailed { stderr } && stderr@ == r.stderr@)),
        !(o is Escalate),
{
    if r.exit_code == 0 {
        MutationOutcome::Done
    } else {
        MutationOutcome::Fail(TransferError::ElevationFailed { stderr: r.stderr.clone() })
    }
}

/// The complete privileged-retry decision, given the plain result and the
/// elevated result when one was obtained. The caller runs the elevated
/// retry exactly when the plain attempt escalates.
pub fn resolve_mutation(plain: &CommandResult, elevated: Option<&CommandResult>) -> (r: Result<
    bool,
    TransferError,
>)
    requires
        elevated is Some <==> spec_escalates(plain.exit_code as int, plain.stderr@),
    ensures
        r is Ok <==> spec_mutation_succeeds(
            plain.exit_code as int,
            plain.stderr@,
            match elevated {
                Some(e) => Some(e.exit_code as int),
                None => None,
            },
        ),
        r matches Ok(was_elevated) ==> (was_elevated <==> spec_escalates(
            plain.exit_code as int,
            plain.stderr@,
        )),
        r matches Err(e) ==> (match e {
            TransferError::CommandFailed { exit_code, stderr } => exit_code == plain.exit_code
                && stderr@ == plain.stderr@ && !spec_denied(plain.stderr@),
            TransferError::ElevationFailed { stderr } => spec_denied(plain.stderr@) && (elevated
                matches Some(el) && stderr@ == el.stderr@ && el.exit_code != 0),
            _ => false,
        }),
{
    match judge_plain(plain) {
        MutationOutcome::Done => Ok(false),
        MutationOutcome::Fail(e) => Err(e),
        MutationOutcome::Escalate => {
            let el = match elevated {
                Some(el) => el,
                None => {
                    return vstd::pervasive::unreached();
                },
            };
            match judge_elevated(el) {
                MutationOutcome::Done => Ok(true),
                MutationOutcome::Fail(e) => Err(e),
                MutationOutcome::Escalate => vstd::pervasive::unreached(),
            }
        },
    }
}

/// The escalation law: a mutation whose plain attempt fails with a
/// permission-denied stderr marker is retried elevated, and then succeeds
/// exactly when the elevated retry exits zero; a plain failure with any
/// other stderr never escalates and never succeeds.
pub proof fn lemma_escalation(exit_code: int, stderr: Seq<char>, elevated_exit: Option<int>)
    ensures
        exit_code != 0 && spec_denied(stderr) ==> spec_escalates(exit_code, stderr) && (
        spec_mutation_succeeds(exit_code, stderr, elevated_exit) <==> elevated_exit == Some(0int)),
        !spec_denied(stderr) ==> !spec_escalates(exit_code, stderr),
        exit_code != 0 && !spec_denied(stderr) ==> !spec_mutation_succeeds(
            exit_code,
            stderr,
            elevated_exit,
        ),
{
}

} // verus!
