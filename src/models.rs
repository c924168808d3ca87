//! Data models for FCM messages, requests, and responses.
use vstd::prelude::*;

verus! {

/// Declares `serde_json::Value` so that messages and error details can carry
/// free-form JSON values through the library unchanged.
#[verifier::external_type_specification]
#[verifier::external_body]
pub struct ExValue(serde_json::Value);

/// An FCM message to be sent.
#[derive(Debug, Clone)]
pub struct Message {
    /// Registration token of the target device or the topic name for subscription.
    pub token: Option<String>,
    /// Notification payload.
    pub notification: Option<Notification>,
    /// Custom data payload.
    pub data: Option<serde_json::Value>,
}

/// A notification payload within an FCM message.
#[derive(Debug, Clone)]
pub struct Notification {
    /// Title of the notification.
    pub title: Option<String>,
    /// Body text of the notification.
    pub body: Option<String>,
}

/// A request to send an FCM message: the literal request body.
#[derive(Debug, Clone)]
pub struct FcmSendRequest {
    /// The FCM message to send.
    pub message: Message,
}

/// The result of a sent FCM message, told apart by the shape of the response body.
#[derive(Debug)]
pub enum FcmSendResult {
    /// A successful response from FCM.
    Success(FcmSuccessResponse),
    /// An error response from FCM.
    Error(FcmErrorResponse),
}

/// A successful response from the FCM API after sending a message.
#[derive(Debug, Clone)]
pub struct FcmSuccessResponse {
    /// Message ID if the message was successfully processed.
    pub name: String,
}

/// An error response from the FCM API after sending a message.
#[derive(Debug, Clone)]
pub struct FcmErrorResponse {
    /// Error if the message was unsuccessfully processed.
    pub error: ErrorResponse,
}

/// The details of an error response from FCM.
#[derive(Debug, Clone)]
pub struct ErrorResponse {
    /// The error code.
    pub code: usize,
    /// The error message.
    pub message: String,
    /// The error status.
    pub status: String,
    /// Additional details about the error.
    pub details: Vec<serde_json::Value>,
}

} // verus!
