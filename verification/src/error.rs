//! The ways an invocation can fail.
//!
//! Every failure is terminal for the invocation: nothing is retried and no
//! partial state survives. The caller reports the failure on the error stream
//! and exits with a non-zero status.

use vstd::prelude::*;

verus! {

/// Why an invocation failed.
#[derive(Clone, Copy, Debug, PartialEq, Eq, Structural)]
pub enum LocaleError {
    /// No window currently holds input focus.
    NoForegroundWindow,
    /// The locale argument does not parse as a signed decimal integer.
    InvalidArgument,
    /// The operating system refused the locale-change request.
    PostRequestFailed,
    /// The command line holds more than the one optional locale argument.
    UsageError,
}

impl LocaleError {
    /// A short description of the failure, for the error stream.
    pub fn describe(&self) -> (m: &'static str)
        ensures
            *self is NoForegroundWindow ==> m@ == "foreground is invalid"@,
            *self is InvalidArgument ==> m@ == "Invalid locale string"@,
            *self is PostRequestFailed ==> m@ == "failed to set input method"@,
            *self is UsageError ==> m@ == "usage: expected at most one locale argument"@,
    {
        match self {
            LocaleError::NoForegroundWindow => "foreground is invalid",
            LocaleError::InvalidArgument => "Invalid locale string",
            LocaleError::PostRequestFailed => "failed to set input method",
            LocaleError::UsageError => "usage: expected at most one locale argument",
        }
    }
}

} // verus!
