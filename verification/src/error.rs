//! The ways in which serving a request fails.

use vstd::prelude::*;

verus! {

/// Why the operating system refused to open or read a file, or to write to
/// the connection.
#[derive(Clone, Copy, Debug, PartialEq, Eq)]
pub enum IoKind {
    /// The path names nothing.
    NotFound,
    /// The process may not open the path.
    PermissionDenied,
    /// Any other failure.
    Other,
}

/// A failed read, open, stat or write.
#[derive(Clone, Debug, PartialEq, Eq)]
pub struct IoFailure {
    pub kind: IoKind,
    /// A short text for the log.
    pub description: String,
}

/// Everything that can go wrong with one request.
#[derive(Clone, Debug, PartialEq, Eq)]
pub enum HttpError {
    /// The request is malformed, or lacks something its protocol demands.
    BadRequest,
    /// The path names a directory, and directories are not listed.
    Forbidden,
    /// The file does not pass the permission policy; the text says which rule
    /// it broke.  Clients cannot tell this from a missing file.
    NotFound(&'static str),
    /// The operating system failed underneath.
    IoError(IoFailure),
}

/// The status code that a client sees for `e`.
pub open spec fn status_of(e: HttpError) -> u16 {
    match e {
        HttpError::BadRequest => 400,
        HttpError::Forbidden => 403,
        HttpError::NotFound(_) => 404,
        HttpError::IoError(f) => match f.kind {
            IoKind::NotFound => 404,
            IoKind::PermissionDenied => 404,
            IoKind::Other => 500,
        },
    }
}

/// The text that the log shows for `e`.
pub open spec fn description_of(e: HttpError) -> Seq<char> {
    match e {
        HttpError::BadRequest => "bad request"@,
        HttpError::Forbidden => "forbidden"@,
        HttpError::NotFound(why) => why@,
        HttpError::IoError(f) => f.description@,
    }
}

impl HttpError {
    /// A short text for the log.  It is more telling than what a client is
    /// shown.
    pub fn description(&self) -> (text: String)
        ensures
            text@ == description_of(*self),
    {
        match self {
            HttpError::BadRequest => "bad request".to_owned(),
            HttpError::Forbidden => "forbidden".to_owned(),
            HttpError::NotFound(why) => (*why).to_owned(),
            HttpError::IoError(f) => f.description.clone(),
        }
    }

    /// The HTTP status code of this error.
    pub fn status(&self) -> (code: u16)
        ensures
            code == status_of(*self),
    {
        match self {
            HttpError::BadRequest => 400,
            HttpError::Forbidden => 403,
            HttpError::NotFound(_) => 404,
            HttpError::IoError(f) => match f.kind {
                IoKind::NotFound => 404,
                IoKind::PermissionDenied => 404,
                IoKind::Other => 500,
            },
        }
    }
}

} // verus!
