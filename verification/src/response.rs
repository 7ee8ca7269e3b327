//! What is sent back: the answer to a request that found its file, and the
//! report of a request that failed.  Both are decided here and written to the
//! connection elsewhere.

use vstd::prelude::*;
use crate::clock::Timestamp;
use crate::error::{status_of, HttpError, IoFailure, IoKind};
use crate::file::{all_readable, exec_mismatch, decision, is_dir, FileOrDir, FileStat, OpenFile};
use crate::request::{Method, Protocol};

verus! {

/// 200 OK.
pub const STATUS_OK: u16 = 200;

/// 304 Not Modified.
pub const STATUS_NOT_MODIFIED: u16 = 304;

/// The answer to a request that found its file.
#[derive(Debug, PartialEq, Eq)]
pub struct Response<F> {
    /// The protocol of the request, in which the answer is framed.
    pub protocol: Protocol,
    /// 200 or 304.
    pub status: u16,
    /// The time of the answer.
    pub date: Timestamp,
    /// The content type, as it was handed in.
    pub content_type: Vec<u8>,
    /// The length of the file.
    pub content_length: u64,
    /// The modification time of the file.
    pub last_modified: Timestamp,
    /// The file to send as the body, where a body is sent.
    pub body: Option<F>,
    /// Whether the connection stays open for another request.
    pub keep_alive: bool,
}

/// The report of a failed request.
#[derive(Clone, Copy, Debug, PartialEq, Eq)]
pub struct ErrorResponse {
    /// The protocol in which the report is framed.
    pub protocol: Protocol,
    /// The status code.
    pub status: u16,
    /// The text that goes with the status code.
    pub reason: &'static str,
    /// Whether the text is also sent as a body.
    pub with_body: bool,
}

/// The client has the file as it is: it named a time, and the file has not
/// changed after it.
pub open spec fn not_modified(if_modified_since: Option<Timestamp>, mtime: Timestamp) -> bool {
    match if_modified_since {
        Some(t) => t.not_before(mtime),
        None => false,
    }
}

/// The answer for a regular file.
pub open spec fn file_response<F>(
    method: Method,
    protocol: Protocol,
    now: Timestamp,
    if_modified_since: Option<Timestamp>,
    content_type: Vec<u8>,
    file: OpenFile<F>,
) -> Response<F> {
    let fresh = not_modified(if_modified_since, file.mtime);
    Response {
        protocol,
        status: if fresh {
            STATUS_NOT_MODIFIED
        } else {
            STATUS_OK
        },
        date: now,
        content_type,
        content_length: file.length,
        last_modified: file.mtime,
        body: if !fresh && method.carries_body() {
            Some(file.file)
        } else {
            None
        },
        keep_alive: protocol.persistent(),
    }
}

/// The answer for what a path turned out to be: a directory is forbidden, for
/// there are no listings; a file is answered.
pub open spec fn response_for<F>(
    method: Method,
    protocol: Protocol,
    now: Timestamp,
    if_modified_since: Option<Timestamp>,
    content_type: Vec<u8>,
    resource: FileOrDir<F>,
) -> Result<Response<F>, HttpError> {
    match resource {
        FileOrDir::Dir => Err(HttpError::Forbidden),
        FileOrDir::File(file) => Ok(
            file_response(method, protocol, now, if_modified_since, content_type, file),
        ),
    }
}

/// Decides the answer to a request whose path was opened.
///
/// A file that has not changed since the time the client named is answered
/// with 304 and no body, whatever the method.  Any other file is answered with
/// 200, its length and the given content type, and with the file itself as
/// the body where the method carries one.  A file that is not sent is dropped
/// here.
pub fn respond<F>(
    method: Method,
    protocol: Protocol,
    now: Timestamp,
    if_modified_since: Option<Timestamp>,
    content_type: Vec<u8>,
    resource: FileOrDir<F>,
) -> (r: Result<Response<F>, HttpError>)
    ensures
        r == response_for(method, protocol, now, if_modified_since, content_type, resource),
        resource is Dir ==> r == Err::<Response<F>, HttpError>(HttpError::Forbidden),
        resource matches FileOrDir::File(f) ==> {
            &&& r matches Ok(resp)
            &&& resp.content_type == content_type
            &&& resp.content_length == f.length
            &&& if not_modified(if_modified_since, f.mtime) {
                resp.status == STATUS_NOT_MODIFIED && resp.body is None
            } else {
                resp.status == STATUS_OK && resp.body == if method == Method::Get {
                    Some(f.file)
                } else {
                    None
                }
            }
        },
{
    match resource {
        FileOrDir::Dir => Err(HttpError::Forbidden),
        FileOrDir::File(file) => {
            let fresh = match if_modified_since {
                Some(t) => t.is_not_before(&file.mtime),
                None => false,
            };
            let keep_alive = protocol.keeps_alive();
            let OpenFile { file: handle, mtime, length } = file;
            let (status, body) = if fresh {
                (STATUS_NOT_MODIFIED, None)
            } else if method.has_body() {
                (STATUS_OK, Some(handle))
            } else {
                (STATUS_OK, None)
            };
            Ok(
                Response {
                    protocol,
                    status,
                    date: now,
                    content_type,
                    content_length: length,
                    last_modified: mtime,
                    body,
                    keep_alive,
                },
            )
        },
    }
}

/// The text that goes with a status code.
pub open spec fn reason_of(status: u16) -> &'static str {
    if status == 400 {
        "Bad Request"
    } else if status == 403 {
        "Forbidden"
    } else if status == 404 {
        "Not Found"
    } else {
        "Internal Server Error"
    }
}

/// The report of `error`: its status and the text of that status, in the
/// protocol of the request, or in HTTP/1.0 where no protocol is known.
pub open spec fn error_response(
    known_protocol: Option<Protocol>,
    body_allowed: bool,
    error: HttpError,
) -> ErrorResponse {
    ErrorResponse {
        protocol: match known_protocol {
            Some(p) => p,
            None => Protocol::Http10,
        },
        status: status_of(error),
        reason: reason_of(status_of(error)),
        with_body: body_allowed,
    }
}

/// Decides the report of a failed request.  It shows the status of the error
/// and nothing else of it.
pub fn report(known_protocol: Option<Protocol>, body_allowed: bool, error: &HttpError) -> (r:
    ErrorResponse)
    ensures
        r == error_response(known_protocol, body_allowed, *error),
{
    let status = error.status();
    let reason: &'static str = if status == 400 {
        "Bad Request"
    } else if status == 403 {
        "Forbidden"
    } else if status == 404 {
        "Not Found"
    } else {
        "Internal Server Error"
    };
    ErrorResponse {
        protocol: match known_protocol {
            Some(p) => p,
            None => Protocol::Http10,
        },
        status,
        reason,
        with_body: body_allowed,
    }
}

/// A readable directory is opened as a directory, and the answer to it is
/// 403: no file is handed on.
pub proof fn lemma_directory_forbidden<F>(
    file: F,
    stat: FileStat,
    method: Method,
    protocol: Protocol,
    now: Timestamp,
    if_modified_since: Option<Timestamp>,
    content_type: Vec<u8>,
)
    requires
        all_readable(stat.mode),
        !exec_mismatch(stat.mode),
        is_dir(stat.mode),
    ensures
        decision(file, stat) == Ok::<FileOrDir<F>, HttpError>(FileOrDir::Dir),
        response_for(
            method,
            protocol,
            now,
            if_modified_since,
            content_type,
            decision(file, stat)->Ok_0,
        ) == Err::<Response<F>, HttpError>(HttpError::Forbidden),
        status_of(HttpError::Forbidden) == 403,
{
}

/// A client cannot tell a file that the policy refuses from one that is not
/// there, nor from one that the operating system will not open: the three
/// reports are the same, and their status is 404.
pub proof fn lemma_refused_as_missing(
    known_protocol: Option<Protocol>,
    body_allowed: bool,
    why: &'static str,
    failure: IoFailure,
)
    requires
        failure.kind == IoKind::NotFound || failure.kind == IoKind::PermissionDenied,
    ensures
        error_response(known_protocol, body_allowed, HttpError::NotFound(why)) == error_response(
            known_protocol,
            body_allowed,
            HttpError::IoError(failure),
        ),
        error_response(known_protocol, body_allowed, HttpError::NotFound(why)).status == 404,
{
}

} // verus!
