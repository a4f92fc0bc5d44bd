use isahc::http::Error as HttpError;
use isahc::Error as SendError;
use serde_json::Error as JsonError;
use vstd::prelude::*;

verus! {

/// `isahc::http::Error`, the error of building an HTTP request; carried, never inspected.
#[verifier::external_type_specification]
#[verifier::external_body]
pub struct ExHttpError(HttpError);

/// `isahc::Error`, the error of sending a request; carried, never inspected.
#[verifier::external_type_specification]
#[verifier::external_body]
pub struct ExIsahcError(SendError);

/// `serde_json::Error`, the error of encoding or decoding JSON; carried, never inspected.
#[verifier::external_type_specification]
#[verifier::external_body]
pub struct ExJsonError(JsonError);

/// The ways a call to the service can fail.
///
/// An unauthorized request (a missing or wrong token) has no kind of its own:
/// the service's refusal surfaces as whichever of these it produces.
#[derive(Debug)]
pub enum Error {
    /// The HTTP request could not be built (a URL or header value it rejects).
    CreateRequest(HttpError),
    /// The request could not be sent, or the connection failed.
    SendRequest(SendError),
    /// A document could not be encoded, or a response body is not the JSON expected.
    JSONResponse(JsonError),
}

} // verus!
