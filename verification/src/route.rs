//! The pure decision part of each request handler. The unverified edge
//! parses the request, calls the handler here, and turns the result into an
//! HTTP response; on an error it answers with the matching client status
//! and keeps running.

use vstd::prelude::*;

pub mod fontfile;
pub mod fontfiles;
pub mod update;
pub mod version;

verus! {

/// The client errors a handler can answer with.
#[derive(Debug)]
pub enum RouteError {
    /// The request itself is unacceptable (HTTP 400).
    BadRequest(String),
    /// The requested resource is not known (HTTP 404).
    NotFound(String),
}

} // verus!
