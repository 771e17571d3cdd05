//! The failure envelope that every operation of the library reports through.

use vstd::prelude::*;

verus! {

/// The classes of failure.
#[derive(Clone, Copy, Debug, PartialEq, Eq, Structural)]
pub enum ErrorKind {
    /// An unknown thread or artifact identifier.
    NotFound,
    /// A request that cannot be served as it stands.
    BadRequest,
    /// A thread changed between the read and the write of one turn.
    Conflict,
    /// The upstream provider or local storage failed.
    Internal,
}

/// A failure: its class and a message for the caller.
#[derive(Debug)]
pub struct ApiError {
    pub kind: ErrorKind,
    pub message: String,
}

/// The mathematical content of an [`ApiError`].
pub struct ErrorView {
    pub kind: ErrorKind,
    pub message: Seq<char>,
}

impl View for ApiError {
    type V = ErrorView;

    open spec fn view(&self) -> ErrorView {
        ErrorView { kind: self.kind, message: self.message@ }
    }
}

/// The HTTP status that stands for a class of failure.
pub open spec fn status_code(kind: ErrorKind) -> u16 {
    match kind {
        ErrorKind::NotFound => 404,
        ErrorKind::BadRequest => 400,
        ErrorKind::Conflict => 409,
        ErrorKind::Internal => 500,
    }
}

/// The failure of the class not found with this message.
pub open spec fn not_found(message: Seq<char>) -> ErrorView {
    ErrorView { kind: ErrorKind::NotFound, message }
}

/// The failure of the class bad request with this message.
pub open spec fn bad_request(message: Seq<char>) -> ErrorView {
    ErrorView { kind: ErrorKind::BadRequest, message }
}

/// The failure of the class conflict with this message.
pub open spec fn conflict(message: Seq<char>) -> ErrorView {
    ErrorView { kind: ErrorKind::Conflict, message }
}

/// The failure of the class internal with this message.
pub open spec fn internal_error(message: Seq<char>) -> ErrorView {
    ErrorView { kind: ErrorKind::Internal, message }
}

impl ApiError {
    /// An unknown thread or artifact.
    pub fn not_found(message: &str) -> (e: ApiError)
        ensures
            e@ == not_found(message@),
    {
        ApiError { kind: ErrorKind::NotFound, message: message.to_owned() }
    }

    /// A request that cannot be served as it stands.
    pub fn bad_request(message: &str) -> (e: ApiError)
        ensures
            e@ == bad_request(message@),
    {
        ApiError { kind: ErrorKind::BadRequest, message: message.to_owned() }
    }

    /// A thread that changed under a turn.
    pub fn conflict(message: &str) -> (e: ApiError)
        ensures
            e@ == conflict(message@),
    {
        ApiError { kind: ErrorKind::Conflict, message: message.to_owned() }
    }

    /// A failure of the provider or of local storage.
    pub fn internal_error(message: &str) -> (e: ApiError)
        ensures
            e@ == internal_error(message@),
    {
        ApiError { kind: ErrorKind::Internal, message: message.to_owned() }
    }

    /// The HTTP status to answer with.
    pub fn status(&self) -> (code: u16)
        ensures
            code == status_code(self.kind),
    {
        match self.kind {
            ErrorKind::NotFound => 404,
            ErrorKind::BadRequest => 400,
            ErrorKind::Conflict => 409,
            ErrorKind::Internal => 500,
        }
    }

    /// A copy of this failure.
    pub fn duplicate(&self) -> (e: ApiError)
        ensures
            e@ == self@,
    {
        ApiError { kind: self.kind, message: self.message.clone() }
    }
}

} // verus!
