//! Categories of application errors and what a client is told of them.

use super::response::{BAD_REQUEST, INTERNAL_SERVER_ERROR};
use vstd::prelude::*;
use vstd::string::StringExecFns;

verus! {

/// A general category of application error.
#[derive(Debug, PartialEq, Eq)]
pub enum ErrorKind {
    /// The database could not be reached or refused the request.
    DbError,
    /// The request was at fault; the text says how.
    UserError(String),
}

/// An application error.
#[derive(Debug)]
pub struct Error {
    kind: ErrorKind,
}

/// The text shown for a database error.
pub open spec fn db_error_text() -> Seq<char> {
    "Database access error"@
}

impl ErrorKind {
    /// The text shown to a client: the user's message, or a fixed text that
    /// gives nothing away of the database.
    pub open spec fn text(self) -> Seq<char> {
        match self {
            ErrorKind::DbError => db_error_text(),
            ErrorKind::UserError(msg) => msg@,
        }
    }

    /// The HTTP status that goes with the category.
    pub open spec fn status(self) -> u16 {
        match self {
            ErrorKind::UserError(_) => BAD_REQUEST,
            ErrorKind::DbError => INTERNAL_SERVER_ERROR,
        }
    }

    /// The text shown to a client.
    pub fn message(&self) -> (text: String)
        ensures
            text@ == self.text(),
    {
        match self {
            ErrorKind::DbError => String::from_str("Database access error"),
            ErrorKind::UserError(msg) => msg.clone(),
        }
    }
}

impl Clone for ErrorKind {
    fn clone(&self) -> (copy: Self)
        ensures
            copy == *self,
    {
        match self {
            ErrorKind::DbError => ErrorKind::DbError,
            ErrorKind::UserError(msg) => ErrorKind::UserError(msg.clone()),
        }
    }
}

impl Error {
    /// The error's category, as contracts see it.
    pub closed spec fn spec_kind(&self) -> ErrorKind {
        self.kind
    }

    /// An error of the given category.
    pub fn new(kind: ErrorKind) -> (error: Self)
        ensures
            error.spec_kind() == kind,
    {
        Error { kind }
    }

    /// The error's category.
    pub fn kind(&self) -> (kind: ErrorKind)
        ensures
            kind == self.spec_kind(),
    {
        self.kind.clone()
    }

    /// The HTTP status of the response: 400 for a user error, 500 otherwise.
    pub fn status(&self) -> (code: u16)
        ensures
            code == self.spec_kind().status(),
    {
        match self.kind {
            ErrorKind::UserError(_) => BAD_REQUEST,
            _ => INTERNAL_SERVER_ERROR,
        }
    }

    /// The status and the message of the response body.
    pub fn into_response(self) -> (response: (u16, String))
        ensures
            response.0 == self.spec_kind().status(),
            response.1@ == self.spec_kind().text(),
    {
        let status = self.status();
        (status, self.kind.message())
    }
}

/// A user error with the given message.
pub fn user_error(msg: &str) -> (error: Error)
    ensures
        error.spec_kind() matches ErrorKind::UserError(text) && text@ == msg@,
{
    Error { kind: ErrorKind::UserError(String::from_str(msg)) }
}

/// Filing the failure of any result under a category of application error.
pub trait ResultExt<T, E> {
    /// What the result is filed as under `category`: a success stays, a
    /// failure becomes an error of that category.
    spec fn filed(self, category: ErrorKind, outcome: Result<T, Error>) -> bool;

    /// Keeps a success and files a failure under `kind`.
    fn kind(self, kind: ErrorKind) -> (outcome: Result<T, Error>)
        ensures
            self.filed(kind, outcome),
    ;

    /// Keeps a success and files a failure as a database error.
    fn db_error(self) -> (outcome: Result<T, Error>)
        ensures
            self.filed(ErrorKind::DbError, outcome),
    ;

    /// Keeps a success and files a failure as a user error with message
    /// `msg`.
    fn user_error(self, msg: &str) -> (outcome: Result<T, Error>)
        ensures
            exists|text: String| text@ == msg@ && #[trigger] self.filed(
                ErrorKind::UserError(text),
                outcome,
            ),
    ;
}

impl<T, E> ResultExt<T, E> for Result<T, E> {
    open spec fn filed(self, category: ErrorKind, outcome: Result<T, Error>) -> bool {
        match self {
            Ok(value) => outcome matches Ok(kept) && kept == value,
            Err(_) => outcome matches Err(error) && error.spec_kind() == category,
        }
    }

    fn kind(self, category: ErrorKind) -> (outcome: Result<T, Error>) {
        match self {
            Ok(value) => Ok(value),
            Err(_) => Err(Error { kind: category }),
        }
    }

    fn db_error(self) -> (outcome: Result<T, Error>) {
        self.kind(ErrorKind::DbError)
    }

    fn user_error(self, msg: &str) -> (outcome: Result<T, Error>) {
        let text = String::from_str(msg);
        let ghost said = text;
        let ghost before = self;
        let outcome = self.kind(ErrorKind::UserError(text));
        proof {
            assert(said@ == msg@ && before.filed(ErrorKind::UserError(said), outcome));
        }
        outcome
    }
}

} // verus!
