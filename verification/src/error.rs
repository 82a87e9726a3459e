//! The errors that the route logic reports to clients.
use vstd::prelude::*;

verus! {

/// An error answered to the client, with its message.
#[derive(Debug)]
pub enum RouteError {
    /// The request is invalid (400).
    Validation(String),
    /// The resource does not exist (404).
    NotFound(String),
    /// The user may not do this (403).
    Authorization(String),
    /// An outside service refused the request.
    ExternalApi { service: String, message: String },
}

} // verus!
