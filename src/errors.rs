//! The failures that the client reports.
use vstd::prelude::*;
use crate::enums::RequestErrorCode;

verus! {

/// The transport's error type, carried through unchanged.
#[verifier::external_type_specification]
#[verifier::external_body]
pub struct ExReqwestError(reqwest::Error);

/// The JSON library's error type, carried through unchanged.
#[verifier::external_type_specification]
#[verifier::external_body]
pub struct ExJsonError(serde_json::Error);

/// The URL parser's error type, carried through unchanged.
#[verifier::external_type_specification]
#[verifier::external_body]
pub struct ExUrlParseError(url::ParseError);

/// std's I/O error type, carried through unchanged.
#[verifier::external_type_specification]
#[verifier::external_body]
pub struct ExIoError(std::io::Error);

/// Every failure that a call of the client can end in.
#[derive(Debug)]
#[allow(inconsistent_fields)]
pub enum AihordeError {
    /// The HTTP exchange itself failed.
    RequestError(reqwest::Error),
    /// The service answered with a failure status and a body that is not its
    /// error envelope; the status and the body text are kept as they came.
    UnexpectedHTTPCode { code: u16, message: String },
    /// Encoding or decoding JSON failed.
    JsonError(serde_json::Error),
    /// A URL could not be parsed.
    UrlError(url::ParseError),
    /// The service rejected the request and said why in its error envelope.
    ApiError { code: RequestErrorCode, message: Option<String> },
    /// Authentication failed.
    AuthenticationError(String),
    /// The API key was refused.
    InvalidApiKey,
    /// Too many requests.
    RateLimited(String),
    /// The request timed out.
    Timeout(String),
    /// The input was refused.
    InvalidInput(String),
    /// The resource does not exist.
    NotFound(String),
    /// The caller may not do this.
    PermissionDenied(String),
    /// The service is unavailable.
    ServiceUnavailable(String),
    /// The service answered with something unexpected.
    UnexpectedResponse(String),
    /// Reading or writing failed.
    IoError(std::io::Error),
    /// The service reported success but the body does not have the expected
    /// shape; holds the decoder's description of the mismatch.
    JsonParseError(String),
    /// Any other failure.
    Other(String),
}

} // verus!
