//! Client library for the Firebase Cloud Messaging (FCM) HTTP v1 API.
//!
//! The library builds the endpoint URL, the authorization header and the
//! JSON request body of one send call, and decodes the JSON response body
//! into a success record or a structured error. Network and file access are
//! left to the caller, which hands the library plain values.
pub mod models;
pub mod error;
pub mod json;
pub mod conversions;
pub mod client;
pub mod credentials;
