//! A parsed request, as the request loop hands it to resolution.

use vstd::prelude::*;
use crate::clock::Timestamp;

verus! {

/// The request methods that the server answers.
#[derive(Clone, Copy, Debug, PartialEq, Eq, Structural)]
pub enum Method {
    Get,
    Head,
}

/// The protocol versions that the server speaks.
#[derive(Clone, Copy, Debug, PartialEq, Eq, Structural)]
pub enum Protocol {
    Http10,
    Http11,
}

/// One request.  Host and path are raw bytes: the host not yet normalized, the
/// path still percent-escaped.
#[derive(Clone, Debug, PartialEq, Eq)]
pub struct Request {
    pub method: Method,
    pub protocol: Protocol,
    pub host: Option<Vec<u8>>,
    pub path: Vec<u8>,
    pub if_modified_since: Option<Timestamp>,
}

impl Method {
    /// Whether a response to this method carries a body.
    pub open spec fn carries_body(self) -> bool {
        self == Method::Get
    }

    /// Whether a response to this method carries a body: `GET` does, `HEAD`
    /// gets the headers alone.
    pub fn has_body(&self) -> (r: bool)
        ensures
            r == self.carries_body(),
    {
        match self {
            Method::Get => true,
            Method::Head => false,
        }
    }
}

impl Protocol {
    /// Whether the connection stays open after a response in this protocol.
    pub open spec fn persistent(self) -> bool {
        self == Protocol::Http11
    }

    /// Whether the connection stays open after a response in this protocol:
    /// HTTP/1.1 keeps it, HTTP/1.0 closes it.
    pub fn keeps_alive(&self) -> (r: bool)
        ensures
            r == self.persistent(),
    {
        match self {
            Protocol::Http10 => false,
            Protocol::Http11 => true,
        }
    }
}

} // verus!
