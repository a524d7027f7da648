//! Core logic of a cross-host remote file manager: parsing connection
//! descriptors, building shell-quoted remote commands, parsing long-format
//! directory listings, deciding privileged retries, and driving file and
//! directory transfers as step machines whose I/O is performed by a caller.

pub mod command;
pub mod editor;
pub mod endpoint;
pub mod errors;
pub mod listing;
pub mod model;
pub mod shell;
pub mod storage;
pub mod sync;
pub mod text;
pub mod transfer;
