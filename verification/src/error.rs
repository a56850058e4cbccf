//! The failures of the proxy: the three that a caller can be shown, and those
//! of configuration and of request construction that lead to them.

use vstd::prelude::*;

verus! {

/// The status of a reply that reports an unknown route.
pub const NOT_FOUND: u16 = 404;

/// The status of a reply that reports a request the caller can correct.
pub const BAD_REQUEST: u16 = 400;

/// The status of a reply that reports a failure on the proxy's side.
pub const INTERNAL_SERVER_ERROR: u16 = 500;

/// The message shown for an unknown route. It says nothing of the routes that
/// exist.
pub open spec fn not_found_message() -> Seq<char> {
    "not found"@
}

/// The reason given when a route does not allow the request's method.
pub open spec fn method_not_supported() -> Seq<char> {
    "Method not supported"@
}

/// The reason given when the outbound request cannot be built.
pub open spec fn request_not_built() -> Seq<char> {
    "Error while building proxy request"@
}

/// Why a request was not answered with the upstream's response.
#[derive(Debug, PartialEq, Eq)]
pub enum HandlerErr {
    /// No route is configured for the path.
    NOTFOUND,
    /// The caller can correct the request; the reason is shown to it.
    BADREQUEST(String),
    /// The proxy or the upstream failed; the reason is shown to the caller.
    INTERNALERROR(String),
}

/// The body of an error reply.
#[derive(Debug, PartialEq, Eq)]
pub struct ErrorMessage {
    pub error: String,
}

/// An error reply: its status and its body.
#[derive(Debug, PartialEq, Eq)]
pub struct ErrorResponse {
    pub status: u16,
    pub body: ErrorMessage,
}

/// A failure as plain values: its kind and, where it has one, its reason.
pub ghost enum Failure {
    NotFound,
    BadRequest(Seq<char>),
    InternalError(Seq<char>),
}

impl View for HandlerErr {
    type V = Failure;

    open spec fn view(&self) -> Failure {
        match self {
            HandlerErr::NOTFOUND => Failure::NotFound,
            HandlerErr::BADREQUEST(reason) => Failure::BadRequest(reason@),
            HandlerErr::INTERNALERROR(reason) => Failure::InternalError(reason@),
        }
    }
}

impl HandlerErr {
    /// The status with which the failure is reported.
    pub open spec fn status(&self) -> u16 {
        match self {
            HandlerErr::NOTFOUND => NOT_FOUND,
            HandlerErr::BADREQUEST(_) => BAD_REQUEST,
            HandlerErr::INTERNALERROR(_) => INTERNAL_SERVER_ERROR,
        }
    }

    /// The message with which the failure is reported.
    pub open spec fn message(&self) -> Seq<char> {
        match self {
            HandlerErr::NOTFOUND => not_found_message(),
            HandlerErr::BADREQUEST(reason) => reason@,
            HandlerErr::INTERNALERROR(reason) => reason@,
        }
    }

    /// The reply that reports the failure.
    pub fn into_response(self) -> (response: ErrorResponse)
        ensures
            response.status == self.status(),
            response.body.error@ == self.message(),
    {
        let (status, message) = match self {
            HandlerErr::NOTFOUND => (NOT_FOUND, String::from_str("not found")),
            HandlerErr::BADREQUEST(msg) => (BAD_REQUEST, msg),
            HandlerErr::INTERNALERROR(msg) => (INTERNAL_SERVER_ERROR, msg),
        };
        ErrorResponse { status, body: ErrorMessage { error: message } }
    }
}

/// Why a route definition gives no record.
#[derive(Clone, Copy, Debug, PartialEq, Eq, Structural)]
pub enum RecordError {
    /// The target is no absolute URL, or is too long to be one.
    InvalidTarget,
    /// No method is allowed.
    NoMethods,
    /// One of the methods is no token.
    InvalidMethod,
    /// Two additions to the response are for one header: their names are the
    /// same without regard to ASCII case.
    DuplicateHeader,
}

/// Why a list of route definitions gives no configuration. Each carries the
/// index of the definition at fault.
#[derive(Clone, Copy, Debug, PartialEq, Eq, Structural)]
pub enum ConfigError {
    /// The definition gives no record.
    Route(usize, RecordError),
    /// An earlier definition has the same key.
    DuplicatePath(usize),
}

/// Why no outbound request was built.
#[derive(Clone, Copy, Debug, PartialEq, Eq, Structural)]
pub enum BuildError {
    /// The record's target is too long to be parsed.
    TargetTooLong,
    /// The path to forward to is too long to be parsed.
    PathTooLong,
    /// The record's target is no absolute URL.
    InvalidTarget,
    /// The URL names no host, so no client can send to it.
    NoHost,
}

} // verus!
