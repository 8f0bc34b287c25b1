//! The trusted boundary around the engine client library.
//!
//! The session layer keeps a `bollard::Docker` handle and receives
//! `bollard::errors::Error` values from the calls the surrounding process
//! makes on that handle. Both types are opaque to the proofs; the two
//! functions below are the only code that looks inside them.

use vstd::prelude::*;
use bollard::errors::Error as EngineError;
use crate::errors::TransportError;

verus! {

/// bollard's client handle. A value of this type stands for one engine
/// client bound to a transport; the proofs treat it as opaque and only
/// track whether the session slot holds one.
#[verifier::external_type_specification]
#[verifier::external_body]
pub struct ExDocker(bollard::Docker);

/// bollard's error type, returned by every call on a handle. Opaque to the
/// proofs; `classify_error` reduces it to the plain transport taxonomy.
#[verifier::external_type_specification]
#[verifier::external_body]
pub struct ExBollardError(bollard::errors::Error);

/// Relies on `bollard::Docker`'s `Clone` impl: the clone shares the
/// underlying transport with the handle it was cloned from. Nothing is
/// claimed of the returned value; callers only use that one more handle
/// now exists.
#[verifier::external_body]
pub(crate) fn clone_docker(handle: &bollard::Docker) -> (r: bollard::Docker) {
    handle.clone()
}

/// Relies on `bollard::errors::Error`: tells its variants apart, one arm
/// each, moving the status code and message of a server error and
/// rendering the wrapped error of the local I/O, HTTP-client and hyper
/// variants; a certificate that could not be read is a local I/O failure
/// too; every other variant falls into the catch-all. Which variant came
/// back cannot be stated here, so callers state what holds of every
/// outcome and `map_error` does the rest on the plain taxonomy.
#[verifier::external_body]
pub(crate) fn classify_error(err: EngineError) -> (r: TransportError) {
    match err {
        EngineError::DockerResponseServerError { status_code, message } => TransportError::ServerError { status_code, message },
        EngineError::RequestTimeoutError => TransportError::Timeout,
        EngineError::IOError { err } => TransportError::Io { message: err.to_string() },
        e @ EngineError::CertPathError { .. } => TransportError::Io { message: e.to_string() },
        EngineError::HttpClientError { err } => TransportError::HttpClient { message: err.to_string() },
        EngineError::HyperResponseError { err } => TransportError::HyperResponse { message: err.to_string() },
        _ => TransportError::Other,
    }
}

} // verus!
