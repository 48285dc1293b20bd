//! Errors as they are shown to the person running a backup.
use vstd::prelude::*;

verus! {

/// Who can do something about an error.
#[derive(Clone, Copy, Debug, PartialEq, Eq, Structural)]
pub enum ErrorKind {
    /// The input or the environment is at fault: the user can mend it.
    User,
    /// The service or the remote side behaved unexpectedly.
    System,
}

/// An error with a summary, advice on what to do, and, where there is one,
/// the text of the cause beneath it. An error that a response reported
/// carries the status code of that response.
#[derive(Clone, Debug)]
pub struct Error {
    pub kind: ErrorKind,
    pub message: String,
    pub advice: String,
    pub cause: Option<String>,
    pub status_code: Option<u16>,
}

/// The mathematical content of an [`Error`].
pub struct ErrorView {
    pub kind: ErrorKind,
    pub message: Seq<char>,
    pub advice: Seq<char>,
    pub cause: Option<Seq<char>>,
    pub status_code: Option<u16>,
}

impl View for Error {
    type V = ErrorView;

    open spec fn view(&self) -> ErrorView {
        ErrorView {
            kind: self.kind,
            message: self.message@,
            advice: self.advice@,
            cause: match self.cause {
                Some(c) => Some(c@),
                None => None,
            },
            status_code: self.status_code,
        }
    }
}

/// The view of a user error without a cause.
pub open spec fn user_error(message: Seq<char>, advice: Seq<char>) -> ErrorView {
    ErrorView { kind: ErrorKind::User, message, advice, cause: None, status_code: None }
}

/// The view of a system error without a cause.
pub open spec fn system_error(message: Seq<char>, advice: Seq<char>) -> ErrorView {
    ErrorView { kind: ErrorKind::System, message, advice, cause: None, status_code: None }
}

/// An error that the user can mend.
pub fn user(message: String, advice: &str) -> (e: Error)
    ensures
        e@ == user_error(message@, advice@),
{
    Error {
        kind: ErrorKind::User,
        message,
        advice: String::from_str(advice),
        cause: None,
        status_code: None,
    }
}

/// An error that the user can mend, with the cause beneath it.
pub fn user_with_internal(message: String, advice: &str, cause: String) -> (e: Error)
    ensures
        e@ == (ErrorView { cause: Some(cause@), ..user_error(message@, advice@) }),
{
    Error {
        kind: ErrorKind::User,
        message,
        advice: String::from_str(advice),
        cause: Some(cause),
        status_code: None,
    }
}

/// An error that points at the service or the remote side.
pub fn system(message: String, advice: &str) -> (e: Error)
    ensures
        e@ == system_error(message@, advice@),
{
    Error {
        kind: ErrorKind::System,
        message,
        advice: String::from_str(advice),
        cause: None,
        status_code: None,
    }
}

/// An error that points at the service or the remote side, with the cause
/// beneath it.
pub fn system_with_internal(message: String, advice: &str, cause: String) -> (e: Error)
    ensures
        e@ == (ErrorView { cause: Some(cause@), ..system_error(message@, advice@) }),
{
    Error {
        kind: ErrorKind::System,
        message,
        advice: String::from_str(advice),
        cause: Some(cause),
        status_code: None,
    }
}

impl Error {
    /// This error, as reported by a response with the status `status`.
    pub fn with_status(self, status: u16) -> (e: Error)
        ensures
            e@ == (ErrorView { status_code: Some(status), ..self@ }),
    {
        Error { status_code: Some(status), ..self }
    }

    /// Whether the user can mend this error.
    pub fn is_user(&self) -> (b: bool)
        ensures
            b == (self@.kind == ErrorKind::User),
    {
        match self.kind {
            ErrorKind::User => true,
            ErrorKind::System => false,
        }
    }

    /// The summary of this error.
    pub fn to_string(&self) -> (out: String)
        ensures
            out@ == self@.message,
    {
        self.message.clone()
    }
}

} // verus!
