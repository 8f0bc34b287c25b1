//! Mapping of transport errors onto the structured errors the UI consumes.

use vstd::prelude::*;

verus! {

/// The tag of a structured error. Every error that reaches the UI carries
/// exactly one of these kinds; free-form strings are never used for the tag.
#[derive(Clone, Copy, PartialEq, Eq, Structural, Debug)]
pub enum ErrorKind {
    NoConnection,
    DockerResponseServerError,
    DockerRequestTimeout,
    IoError,
    HttpClientError,
    HyperResponseError,
    UnknownDockerError,
}

/// A tagged error value for the UI: a kind, an optional HTTP status code and
/// an optional human-readable message.
#[derive(PartialEq, Eq, Debug)]
pub struct StructuredError {
    pub kind: ErrorKind,
    pub status_code: Option<u16>,
    pub message: Option<String>,
}

/// The transport error taxonomy as the session layer sees it: each variant
/// carries the plain values the error mapper reads.
#[derive(PartialEq, Eq, Debug)]
pub enum TransportError {
    /// The daemon answered with a non-2xx status.
    ServerError { status_code: u16, message: String },
    /// The transport-level timeout elapsed.
    Timeout,
    /// A local I/O failure.
    Io { message: String },
    /// A client-side transport failure.
    HttpClient { message: String },
    /// A low-level HTTP response failure.
    HyperResponse { message: String },
    /// Any other transport error.
    Other,
}

/// What the error mapper returns for each transport error.
pub open spec fn spec_map_error(e: TransportError) -> StructuredError {
    match e {
        TransportError::ServerError { status_code, message } => (StructuredError {
            kind: ErrorKind::DockerResponseServerError,
            status_code: Some(status_code),
            message: Some(message),
        }),
        TransportError::Timeout => (StructuredError {
            kind: ErrorKind::DockerRequestTimeout,
            status_code: None,
            message: None,
        }),
        TransportError::Io { message } => (StructuredError {
            kind: ErrorKind::IoError,
            status_code: None,
            message: Some(message),
        }),
        TransportError::HttpClient { message } => (StructuredError {
            kind: ErrorKind::HttpClientError,
            status_code: None,
            message: Some(message),
        }),
        TransportError::HyperResponse { message } => (StructuredError {
            kind: ErrorKind::HyperResponseError,
            status_code: None,
            message: Some(message),
        }),
        TransportError::Other => (StructuredError {
            kind: ErrorKind::UnknownDockerError,
            status_code: None,
            message: None,
        }),
    }
}

/// The structured error that signals the absence of a validated handle.
pub open spec fn spec_no_connection_error() -> StructuredError {
    StructuredError { kind: ErrorKind::NoConnection, status_code: None, message: None }
}

/// A structured error is well formed when it carries the payload its kind
/// promises: a server error has a status code and a message, the local
/// failure kinds have a message.
pub open spec fn error_wf(s: StructuredError) -> bool {
    match s.kind {
        ErrorKind::DockerResponseServerError => s.status_code is Some && s.message is Some,
        ErrorKind::IoError => s.message is Some,
        ErrorKind::HttpClientError => s.message is Some,
        ErrorKind::HyperResponseError => s.message is Some,
        _ => true,
    }
}

/// Pure, total error mapper: translates a transport error into the tagged
/// structured value the UI consumes.
pub fn map_error(e: TransportError) -> (r: StructuredError)
    ensures
        r == spec_map_error(e),
{
    match e {
        TransportError::ServerError { status_code, message } => StructuredError {
            kind: ErrorKind::DockerResponseServerError,
            status_code: Some(status_code),
            message: Some(message),
        },
        TransportError::Timeout => StructuredError {
            kind: ErrorKind::DockerRequestTimeout,
            status_code: None,
            message: None,
        },
        TransportError::Io { message } => StructuredError {
            kind: ErrorKind::IoError,
            status_code: None,
            message: Some(message),
        },
        TransportError::HttpClient { message } => StructuredError {
            kind: ErrorKind::HttpClientError,
            status_code: None,
            message: Some(message),
        },
        TransportError::HyperResponse { message } => StructuredError {
            kind: ErrorKind::HyperResponseError,
            status_code: None,
            message: Some(message),
        },
        TransportError::Other => StructuredError {
            kind: ErrorKind::UnknownDockerError,
            status_code: None,
            message: None,
        },
    }
}

/// The structured error used when no validated handle is present.
pub fn no_connection_error() -> (r: StructuredError)
    ensures
        r == spec_no_connection_error(),
{
    StructuredError { kind: ErrorKind::NoConnection, status_code: None, message: None }
}

/// Every transport error variant maps to a well-formed structured error, and
/// never to the kind that is reserved for the missing-connection condition.
pub proof fn lemma_error_totality(e: TransportError)
    ensures
        error_wf(spec_map_error(e)),
        spec_map_error(e).kind != ErrorKind::NoConnection,
{
}

} // verus!
