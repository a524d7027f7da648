//! The typed failures of the transfer core. Every operation surfaces one of
//! these; `message` renders the descriptive text shown to the caller.

use vstd::prelude::*;
use vstd::string::*;
use crate::text::int_digits;

verus! {

/// One failure of a remote operation, from session establishment through
/// command execution to file transfer.
#[derive(Debug)]
pub enum TransferError {
    /// The combined connection string did not split into exactly two
    /// non-empty parts on `@`.
    MalformedAddress,
    /// The transport connection could not be opened.
    ConnectFailed { detail: String },
    /// The protocol handshake failed.
    HandshakeFailed { detail: String },
    /// Password authentication failed.
    AuthFailed { detail: String },
    /// A command channel could not be opened, or its output not read.
    ChannelError { detail: String },
    /// A remote command exited non-zero without a permission-denied marker.
    CommandFailed { exit_code: i32, stderr: String },
    /// A directory listing command exited non-zero.
    ListFailed { exit_code: i32 },
    /// An I/O error while streaming file content.
    TransferFailed { reason: String },
    /// The elevated retry of a permission-denied mutation itself failed.
    ElevationFailed { stderr: String },
}

/// The descriptive text of each error kind.
pub open spec fn spec_message(e: TransferError) -> Seq<char> {
    match e {
        TransferError::MalformedAddress => "Invalid connection string: expected 'user@host'"@,
        TransferError::ConnectFailed { detail } => "Failed to connect to server: "@ + detail@,
        TransferError::HandshakeFailed { detail } => "SSH handshake failed: "@ + detail@,
        TransferError::AuthFailed { detail } => "Authentication failed: "@ + detail@,
        TransferError::ChannelError { detail } => "Channel error: "@ + detail@,
        TransferError::CommandFailed { exit_code, stderr } => "Command exited with code "@
            + int_digits(exit_code as int) + ": "@ + stderr@,
        TransferError::ListFailed { exit_code } => "Listing command exited with code "@
            + int_digits(exit_code as int),
        TransferError::TransferFailed { reason } => "File transfer failed: "@ + reason@,
        TransferError::ElevationFailed { stderr } => "Elevated command failed: "@ + stderr@,
    }
}

impl TransferError {
    /// Renders the error as a descriptive message.
    pub fn message(&self) -> (m: String)
        ensures
            m@ == spec_message(*self),
    {
        match self {
            TransferError::MalformedAddress => String::from_str(
                "Invalid connection string: expected 'user@host'",
            ),
            TransferError::ConnectFailed { detail } => String::from_str(
                "Failed to connect to server: ",
            ).concat(detail.as_str()),
            TransferError::HandshakeFailed { detail } => String::from_str(
                "SSH handshake failed: ",
            ).concat(detail.as_str()),
            TransferError::AuthFailed { detail } => String::from_str(
                "Authentication failed: ",
            ).concat(detail.as_str()),
            TransferError::ChannelError { detail } => String::from_str(
                "Channel error: ",
            ).concat(detail.as_str()),
            TransferError::CommandFailed { exit_code, stderr } => String::from_str(
                "Command exited with code ",
            ).concat(crate::text::i32_string(*exit_code).as_str()).concat(": ").concat(
                stderr.as_str(),
            ),
            TransferError::ListFailed { exit_code } => String::from_str(
                "Listing command exited with code ",
            ).concat(crate::text::i32_string(*exit_code).as_str()),
            TransferError::TransferFailed { reason } => String::from_str(
                "File transfer failed: ",
            ).concat(reason.as_str()),
            TransferError::ElevationFailed { stderr } => String::from_str(
                "Elevated command failed: ",
            ).concat(stderr.as_str()),
        }
    }
}

} // verus!
