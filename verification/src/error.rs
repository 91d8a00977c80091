//! The library's error type: a kind and a human-readable message.
use vstd::prelude::*;

use crate::text::push_str;

verus! {

/// What went wrong, broadly.
#[derive(Clone, Copy, Debug, PartialEq, Eq, Structural)]
pub enum ErrorKind {
    Usage,
    Validation,
    Conflict,
    NotFound,
    Io,
}

/// An error with its kind and the message shown to the user.
#[derive(Clone, Debug)]
pub struct SnipError {
    pub kind: ErrorKind,
    pub message: String,
}

impl View for SnipError {
    type V = (ErrorKind, Seq<char>);

    open spec fn view(&self) -> (ErrorKind, Seq<char>) {
        (self.kind, self.message@)
    }
}

/// A result whose error is viewed as its kind and message.
pub open spec fn result_view<T>(r: Result<T, SnipError>) -> Result<T, (ErrorKind, Seq<char>)> {
    match r {
        Ok(value) => Ok(value),
        Err(error) => Err(error@),
    }
}

/// The validation error with message `m`, as a spec value.
pub open spec fn invalid<T>(m: Seq<char>) -> Result<T, (ErrorKind, Seq<char>)> {
    Err((ErrorKind::Validation, m))
}

impl SnipError {
    /// An error of `kind` with `message`.
    pub fn new(kind: ErrorKind, message: String) -> (e: SnipError)
        ensures
            e@ == (kind, message@),
    {
        SnipError { kind, message }
    }

    /// A validation error.
    pub fn validation(message: String) -> (e: SnipError)
        ensures
            e@ == (ErrorKind::Validation, message@),
    {
        SnipError { kind: ErrorKind::Validation, message }
    }

    /// A validation error whose message is a literal.
    pub fn validation_lit(message: &str) -> (e: SnipError)
        ensures
            e@ == (ErrorKind::Validation, message@),
    {
        let mut text = String::new();
        push_str(&mut text, message);
        assert(text@ =~= message@);
        SnipError { kind: ErrorKind::Validation, message: text }
    }

    /// A usage error.
    pub fn usage(message: String) -> (e: SnipError)
        ensures
            e@ == (ErrorKind::Usage, message@),
    {
        SnipError { kind: ErrorKind::Usage, message }
    }

    /// A not-found error.
    pub fn not_found(message: String) -> (e: SnipError)
        ensures
            e@ == (ErrorKind::NotFound, message@),
    {
        SnipError { kind: ErrorKind::NotFound, message }
    }

    /// A conflict error.
    pub fn conflict(message: String) -> (e: SnipError)
        ensures
            e@ == (ErrorKind::Conflict, message@),
    {
        SnipError { kind: ErrorKind::Conflict, message }
    }

    /// The message, as the user sees it.
    pub fn to_string(&self) -> (s: String)
        ensures
            s@ == self.message@,
    {
        let mut text = String::new();
        push_str(&mut text, self.message.as_str());
        assert(text@ =~= self.message@);
        text
    }
}

} // verus!
