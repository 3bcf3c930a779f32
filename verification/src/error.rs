//! Errors returned by prompts.

use crate::strings::{push_str, to_owned_string};
use vstd::prelude::*;

verus! {

#[verifier::external_type_specification]
#[verifier::external_body]
pub struct ExIoError(std::io::Error);

/// An error raised by a callback of the library's user, such as a validator,
/// carried with its message.
#[derive(Clone, Debug, PartialEq, Eq)]
pub struct CustomUserError {
    /// What went wrong, in the words of the callback.
    pub message: String,
}

impl CustomUserError {
    /// An error with the given message.
    pub fn new(message: String) -> (r: Self)
        ensures
            r.message@ == message@,
    {
        CustomUserError { message }
    }
}

/// Possible errors returned by prompts.
#[derive(Debug)]
pub enum InquireError {
    /// The input device is not a TTY, so raw mode cannot be enabled.
    NotTTY,
    /// The prompt configuration is not valid; the string says why.
    InvalidConfiguration(String),
    /// An IO operation failed.
    IO(std::io::Error),
    /// The user canceled the operation by pressing ESC.
    OperationCanceled,
    /// The user interrupted the operation with Ctrl+C.
    OperationInterrupted,
    /// A callback of the library's user failed.
    Custom(CustomUserError),
}

/// Result whose error is an [InquireError].
pub type InquireResult<T> = Result<T, InquireError>;

/// Whether an OS error code tells that the input device is not a terminal:
/// "inappropriate ioctl" (25) or "no such device" (6).
pub open spec fn spec_not_tty_code(os_error: Option<i32>) -> bool {
    os_error == Some(25i32) || os_error == Some(6i32)
}

/// The OS error code of an IO error, with `std::io::Error::raw_os_error`.
///
/// Trusted: nothing is stated of the code, which depends on how the error was
/// made.
#[verifier::external_body]
fn raw_os_error(e: &std::io::Error) -> (r: Option<i32>) {
    e.raw_os_error()
}

/// The text of an IO error, with its `Display`.
///
/// Trusted: nothing is stated of the text, which the OS may provide.
#[verifier::external_body]
fn io_error_text(e: &std::io::Error) -> String {
    format!("{}", e)
}

impl InquireError {
    /// The message of the error, as the user reads it.
    pub fn to_string(&self) -> (r: String)
        ensures
            self is NotTTY ==> r@ == "The input device is not a TTY"@,
            self matches InquireError::InvalidConfiguration(s) ==> r@ == "The prompt configuration is invalid: "@ + s@,
            self is IO ==> r@.len() >= 10 && r@.take(10) == "IO error: "@,
            self is OperationCanceled ==> r@ == "Operation was canceled by the user"@,
            self is OperationInterrupted ==> r@ == "Operation was interrupted by the user"@,
            self matches InquireError::Custom(e) ==> r@ == "User-provided error: "@ + e.message@,
    {
        match self {
            InquireError::NotTTY => to_owned_string("The input device is not a TTY"),
            InquireError::InvalidConfiguration(s) => {
                let mut r = to_owned_string("The prompt configuration is invalid: ");
                push_str(&mut r, s.as_str());
                r
            },
            InquireError::IO(e) => {
                let mut r = to_owned_string("IO error: ");
                let text = io_error_text(e);
                push_str(&mut r, text.as_str());
                proof {
                    reveal_strlit("IO error: ");
                    assert(r@.take(10) =~= "IO error: "@);
                }
                r
            },
            InquireError::OperationCanceled => to_owned_string("Operation was canceled by the user"),
            InquireError::OperationInterrupted => to_owned_string("Operation was interrupted by the user"),
            InquireError::Custom(e) => {
                let mut r = to_owned_string("User-provided error: ");
                push_str(&mut r, e.message.as_str());
                r
            },
        }
    }

    /// The error for an IO error whose OS error code is `os_error`: `NotTTY`
    /// for the codes of a missing terminal, otherwise the IO error itself.
    pub fn from_io_code(os_error: Option<i32>, e: std::io::Error) -> (r: Self)
        ensures
            spec_not_tty_code(os_error) ==> r is NotTTY,
            !spec_not_tty_code(os_error) ==> r == InquireError::IO(e),
    {
        match os_error {
            Some(25) | Some(6) => InquireError::NotTTY,
            _ => InquireError::IO(e),
        }
    }

    /// Converts an IO error as the conversion from `std::io::Error` does: by
    /// its OS error code (see [InquireError::from_io_code]).
    pub fn from_io(e: std::io::Error) -> (r: Self)
        ensures
            r is NotTTY || r == InquireError::IO(e),
    {
        let code = raw_os_error(&e);
        Self::from_io_code(code, e)
    }

    /// Wraps an error of a user callback, as the conversion from it does.
    pub fn from_custom(e: CustomUserError) -> (r: Self)
        ensures
            r == InquireError::Custom(e),
    {
        InquireError::Custom(e)
    }
}

} // verus!
