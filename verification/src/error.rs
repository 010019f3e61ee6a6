//! The library's error type.

use vstd::prelude::*;

verus! {

/// Errors reported by the model library core.
#[derive(Debug)]
pub enum PumasError {
    /// A filesystem operation failed; `os_code` is the raw OS error number.
    Io { message: String, path: Option<String>, os_code: Option<i32> },
    /// A JSON document could not be read or written.
    Json { message: String },
    /// A persisted or requested value violates a store invariant.
    Validation { field: String, message: String },
    /// Caller-supplied parameters are invalid.
    InvalidParams { message: String },
    /// A required component is not configured.
    Config { message: String },
    /// Another download owns the download root.
    DownloadRootBusy,
    /// The connection to the primary instance (process `pid`, IPC `port`)
    /// was lost.
    SharedInstanceLost { pid: u32, port: u16 },
    /// Any other failure, with its message.
    Other(String),
}

/// The shape of an error, without its text.
pub open spec fn is_validation(e: PumasError, field: Seq<char>) -> bool {
    e matches PumasError::Validation { field: f, .. } && f@ == field
}

/// A validation error with exactly this field and message.
pub open spec fn is_error(e: PumasError, field: Seq<char>, message: Seq<char>) -> bool {
    e matches PumasError::Validation { field: f, message: m } && f@ == field && m@ == message
}

pub open spec fn is_other(e: PumasError, message: Seq<char>) -> bool {
    e matches PumasError::Other(m) && m@ == message
}

pub fn validation_error(field: &str, message: &str) -> (e: PumasError)
    ensures
        e matches PumasError::Validation { field: f, message: m } && f@ == field@ && m@
            == message@,
{
    PumasError::Validation { field: field.to_owned(), message: message.to_owned() }
}

pub fn other_error(message: &str) -> (e: PumasError)
    ensures
        is_other(e, message@),
{
    PumasError::Other(message.to_owned())
}

} // verus!
