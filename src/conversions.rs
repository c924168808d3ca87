//! Conversions between the response shapes, the outside errors and `FcmError`.
use vstd::prelude::*;
use crate::error::FcmError;
use crate::models::{FcmSendResult, FcmSuccessResponse};

verus! {

/// What a decoded response means to the caller: the success record, or the
/// server's structured error as `FcmError::ResponseError`.
pub open spec fn send_outcome(r: FcmSendResult) -> Result<FcmSuccessResponse, FcmError> {
    match r {
        FcmSendResult::Success(s) => Ok(s),
        FcmSendResult::Error(e) => Err(FcmError::ResponseError(e)),
    }
}

impl From<FcmSendResult> for Result<FcmSuccessResponse, FcmError> {
    fn from(r: FcmSendResult) -> (out: Result<FcmSuccessResponse, FcmError>)
        ensures
            out == send_outcome(r),
    {
        match r {
            FcmSendResult::Success(success) => Ok(success),
            FcmSendResult::Error(error) => Err(FcmError::ResponseError(error)),
        }
    }
}

impl vstd::std_specs::convert::FromSpecImpl<FcmSendResult> for Result<FcmSuccessResponse, FcmError> {
    open spec fn obeys_from_spec() -> bool {
        true
    }

    open spec fn from_spec(r: FcmSendResult) -> Result<FcmSuccessResponse, FcmError> {
        send_outcome(r)
    }
}

impl From<reqwest::Error> for FcmError {
    fn from(e: reqwest::Error) -> (out: FcmError)
        ensures
            out == FcmError::RequestError(e),
    {
        FcmError::RequestError(e)
    }
}

impl vstd::std_specs::convert::FromSpecImpl<reqwest::Error> for FcmError {
    open spec fn obeys_from_spec() -> bool {
        true
    }

    open spec fn from_spec(e: reqwest::Error) -> FcmError {
        FcmError::RequestError(e)
    }
}

impl From<serde_json::Error> for FcmError {
    fn from(e: serde_json::Error) -> (out: FcmError)
        ensures
            out == FcmError::JsonError(e),
    {
        FcmError::JsonError(e)
    }
}

impl vstd::std_specs::convert::FromSpecImpl<serde_json::Error> for FcmError {
    open spec fn obeys_from_spec() -> bool {
        true
    }

    open spec fn from_spec(e: serde_json::Error) -> FcmError {
        FcmError::JsonError(e)
    }
}

impl From<yup_oauth2::Error> for FcmError {
    fn from(e: yup_oauth2::Error) -> (out: FcmError)
        ensures
            out == FcmError::OAuth2Error(e),
    {
        FcmError::OAuth2Error(e)
    }
}

impl vstd::std_specs::convert::FromSpecImpl<yup_oauth2::Error> for FcmError {
    open spec fn obeys_from_spec() -> bool {
        true
    }

    open spec fn from_spec(e: yup_oauth2::Error) -> FcmError {
        FcmError::OAuth2Error(e)
    }
}

impl From<std::io::Error> for FcmError {
    fn from(e: std::io::Error) -> (out: FcmError)
        ensures
            out == FcmError::IoError(e),
    {
        FcmError::IoError(e)
    }
}

impl vstd::std_specs::convert::FromSpecImpl<std::io::Error> for FcmError {
    open spec fn obeys_from_spec() -> bool {
        true
    }

    open spec fn from_spec(e: std::io::Error) -> FcmError {
        FcmError::IoError(e)
    }
}

} // verus!
