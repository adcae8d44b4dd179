//! HTTP status and message of an error answered by the server.
use vstd::prelude::*;
use vstd::string::StringExecFns;
use crate::error::{message_spec, VoxError};

verus! {

/// HTTP 400 Bad Request.
pub const BAD_REQUEST: u16 = 400;
/// HTTP 500 Internal Server Error.
pub const INTERNAL_SERVER_ERROR: u16 = 500;
/// HTTP 503 Service Unavailable.
pub const SERVICE_UNAVAILABLE: u16 = 503;

/// An error as the server answers it: an HTTP status and a message.
#[derive(Debug)]
pub struct ServerError {
    status: u16,
    message: String,
}

/// The HTTP status that answers `e`: a missing speech-to-text or
/// voice-activity backend makes the service unavailable; every other error
/// is an internal error.
pub open spec fn status_for(e: VoxError) -> u16 {
    match e {
        VoxError::NoStt | VoxError::NoVad => SERVICE_UNAVAILABLE,
        _ => INTERNAL_SERVER_ERROR,
    }
}

impl ServerError {
    /// The HTTP status.
    pub closed spec fn status_spec(&self) -> u16 {
        self.status
    }

    /// The message.
    pub closed spec fn message_view(&self) -> Seq<char> {
        self.message@
    }

    /// A 503 answer with `msg`.
    pub fn service_unavailable(msg: &str) -> (r: Self)
        ensures
            r.status_spec() == SERVICE_UNAVAILABLE,
            r.message_view() == msg@,
    {
        ServerError { status: SERVICE_UNAVAILABLE, message: String::from_str(msg) }
    }

    /// A 400 answer with `msg`.
    pub fn bad_request(msg: &str) -> (r: Self)
        ensures
            r.status_spec() == BAD_REQUEST,
            r.message_view() == msg@,
    {
        ServerError { status: BAD_REQUEST, message: String::from_str(msg) }
    }

    /// The answer to a pipeline error: its status (see `status_for`) and
    /// the error's message.
    pub fn from_error(err: &VoxError) -> (r: Self)
        ensures
            r.status_spec() == status_for(*err),
            message_spec(*err) matches Some(m) ==> r.message_view() == m,
            *err is ModelNotFound ==> exists|p: Seq<char>| r.message_view() == "model not found: "@ + p,
    {
        let status = match err {
            VoxError::NoStt | VoxError::NoVad => SERVICE_UNAVAILABLE,
            _ => INTERNAL_SERVER_ERROR,
        };
        ServerError { status, message: err.message() }
    }

    /// The HTTP status.
    pub fn status(&self) -> (r: u16)
        ensures
            r == self.status_spec(),
    {
        self.status
    }

    /// The message.
    pub fn message(&self) -> (r: &str)
        ensures
            r@ == self.message_view(),
    {
        self.message.as_str()
    }
}

} // verus!
