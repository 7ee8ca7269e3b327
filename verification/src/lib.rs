//! A small static-file HTTP server core: the decisions of the request
//! pipeline, stated and proved over plain values.

pub mod ascii;
pub mod clock;
pub mod error;
pub mod file;
pub mod path;
pub mod percent;
pub mod request;
pub mod response;
pub mod server;
