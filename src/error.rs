//! The error value that the application's commands hand back to callers.
use vstd::prelude::*;

verus! {

/// An error with a machine-readable code and a human-readable message.
#[derive(Debug)]
pub struct CommandError {
    pub code: String,
    pub message: String,
}

impl CommandError {
    pub fn new(code: &str, message: &str) -> (r: CommandError)
        ensures
            r.code@ == code@,
            r.message@ == message@,
    {
        CommandError { code: code.to_owned(), message: message.to_owned() }
    }

    /// An error raised by the file system; `message` is its description.
    pub fn io_error(message: String) -> (r: CommandError)
        ensures
            r.code@ == "IO_ERROR"@,
            r.message@ == message@,
    {
        CommandError { code: "IO_ERROR".to_owned(), message }
    }

    /// An error known only by its message.
    pub fn unknown(message: String) -> (r: CommandError)
        ensures
            r.code@ == "UNKNOWN_ERROR"@,
            r.message@ == message@,
    {
        CommandError { code: "UNKNOWN_ERROR".to_owned(), message }
    }
}

} // verus!
