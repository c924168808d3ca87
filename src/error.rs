//! Error types for FCM operations.
use vstd::prelude::*;
use crate::models::FcmErrorResponse;

verus! {

/// Declares `reqwest::Error`, the transport failure of an HTTP call.
#[verifier::external_type_specification]
#[verifier::external_body]
pub struct ExRequestError(reqwest::Error);

/// Declares `serde_json::Error`, a JSON encoding or decoding failure.
#[verifier::external_type_specification]
#[verifier::external_body]
pub struct ExJsonError(serde_json::Error);

/// Declares `yup_oauth2::Error`, a failure of the OAuth2 token provider.
#[verifier::external_type_specification]
#[verifier::external_body]
pub struct ExOAuth2Error(yup_oauth2::Error);

/// Declares `std::io::Error`, a failure to read the credential file.
#[verifier::external_type_specification]
#[verifier::external_body]
pub struct ExIoError(std::io::Error);

/// Errors that can occur while using the FCM client.
#[derive(Debug)]
pub enum FcmError {
    /// An error occurred during an HTTP request.
    RequestError(reqwest::Error),
    /// An error occurred during authentication.
    AuthError(String),
    /// An error occurred during JSON serialization or deserialization.
    JsonError(serde_json::Error),
    /// An error occurred related to OAuth2.
    OAuth2Error(yup_oauth2::Error),
    /// An error occurred during file I/O operations.
    IoError(std::io::Error),
    /// The FCM server answered with a structured error.
    ResponseError(FcmErrorResponse),
}

} // verus!
