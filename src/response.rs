//! Classification of the service's answers. A success status leads to the
//! expected record or, when the body does not have its shape, to a
//! malformed-body failure. Any other status leads to the structured API error
//! when the body is the service's error envelope, and otherwise to an opaque
//! failure that keeps the status and the body text.
use vstd::prelude::*;
use crate::errors::AihordeError;
use crate::models::ValidationError;

verus! {

/// A status in the success range, 200 to 299.
pub open spec fn is_success_status(status: u16) -> bool {
    200 <= status && status <= 299
}

/// Tells whether `status` is in the success range, 200 to 299.
pub fn is_success(status: u16) -> (r: bool)
    ensures
        r == is_success_status(status),
{
    200 <= status && status <= 299
}

/// The outcome of a response with a success status, given what decoding its
/// body as the expected record gave: that record, or a malformed-body failure
/// with the decoder's description. Never a made-up default.
pub fn success_outcome<T>(decoded: Result<T, String>) -> (r: Result<T, AihordeError>)
    ensures
        match decoded {
            Ok(v) => r == Ok::<T, AihordeError>(v),
            Err(e) => r == Err::<T, AihordeError>(AihordeError::JsonParseError(e)),
        },
{
    match decoded {
        Ok(v) => Ok(v),
        Err(e) => Err(AihordeError::JsonParseError(e)),
    }
}

/// The failure that a response with any other status stands for, given its
/// status, its body text and what decoding that body as the error envelope
/// gave: the structured API error with the envelope's code and message, or,
/// when the body is no envelope, an opaque failure with the status and the
/// body text as they came.
pub fn failure_outcome(status: u16, body: String, envelope: Option<ValidationError>) -> (r: AihordeError)
    ensures
        match envelope {
            Some(v) => r == (AihordeError::ApiError { code: v.rc, message: v.message }),
            None => r == (AihordeError::UnexpectedHTTPCode { code: status, message: body }),
        },
{
    match envelope {
        Some(v) => AihordeError::ApiError { code: v.rc, message: v.message },
        None => AihordeError::UnexpectedHTTPCode { code: status, message: body },
    }
}

} // verus!
