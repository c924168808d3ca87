//! The service-account credential a client is built from.
use vstd::prelude::*;
use crate::error::FcmError;

verus! {

/// Declares `yup_oauth2::ServiceAccountKey`, the decoded service-account key
/// that the token provider is built from.
#[verifier::external_type_specification]
#[verifier::external_body]
pub struct ExServiceAccountKey(yup_oauth2::ServiceAccountKey);

/// Whether the bytes are the JSON text of a service-account key, as
/// `yup_oauth2` decodes one: every required field present and well typed.
pub uninterp spec fn is_service_account_key(b: Seq<u8>) -> bool;

/// The `project_id` field of the service-account key whose JSON text the
/// bytes are, if the key names a project.
pub uninterp spec fn key_project_of(b: Seq<u8>) -> Option<Seq<char>>;

/// Relies on `yup_oauth2::parse_service_account_key`: decodes a
/// service-account key from its JSON text, or reports why it cannot; with
/// the key comes its public field `project_id`.
#[verifier::external_body]
pub(crate) fn parse_key(key_json: &[u8]) -> (r: Result<(yup_oauth2::ServiceAccountKey, Option<String>), std::io::Error>)
    ensures
        r is Ok <==> is_service_account_key(key_json@),
        r is Ok ==> (r->Ok_0.1 is Some <==> key_project_of(key_json@) is Some),
        r is Ok && r->Ok_0.1 is Some ==> r->Ok_0.1->Some_0@ == key_project_of(key_json@)->Some_0,
{
    yup_oauth2::parse_service_account_key(key_json).map(|key| {
        let project_id = key.project_id.clone();
        (key, project_id)
    })
}

/// Relies on the `Display` impl of `std::io::Error`: a description of the error.
#[verifier::external_body]
pub(crate) fn io_error_text(e: &std::io::Error) -> (r: String) {
    e.to_string()
}

/// A decoded service-account key and the project that messages go to.
#[derive(Debug)]
pub struct Credentials {
    /// The key the token provider is built from.
    pub key: yup_oauth2::ServiceAccountKey,
    /// The project whose send endpoint is used.
    pub project_id: String,
}

/// Chooses the project a client sends to: the one given explicitly, else the
/// one named in the service-account key, else an `AuthError`.
pub fn resolve_project_id(explicit: Option<String>, from_key: Option<String>) -> (r: Result<String, FcmError>)
    ensures
        explicit is Some ==> r == Ok::<String, FcmError>(explicit->Some_0),
        explicit is None && from_key is Some ==> r == Ok::<String, FcmError>(from_key->Some_0),
        explicit is None && from_key is None ==> (r matches Err(FcmError::AuthError(m))
            && m@ == "Service account key JSON file missing project ID"@),
{
    match explicit {
        Some(id) => Ok(id),
        None => match from_key {
            Some(id) => Ok(id),
            None => Err(FcmError::AuthError(String::from_str("Service account key JSON file missing project ID"))),
        },
    }
}

/// Decodes a service-account key and settles the project it is used for:
/// the one given, else the one the key names. A key that cannot be decoded,
/// or a project that is neither given nor named in the key, is an
/// `AuthError`; no network call is made.
pub fn load_credentials(key_json: &[u8], project_id: Option<String>) -> (r: Result<Credentials, FcmError>)
    ensures
        r is Err ==> r->Err_0 is AuthError,
        !is_service_account_key(key_json@) ==> r is Err,
        is_service_account_key(key_json@) && project_id is Some ==> (r matches Ok(c) && c.project_id
            == project_id->Some_0),
        is_service_account_key(key_json@) && project_id is None ==> (r is Ok <==> key_project_of(key_json@) is Some),
        r is Ok && project_id is None ==> r->Ok_0.project_id@ == key_project_of(key_json@)->Some_0,
{
    match parse_key(key_json) {
        Err(e) => Err(FcmError::AuthError(io_error_text(&e))),
        Ok((key, named)) => match resolve_project_id(project_id, named) {
            Ok(id) => Ok(Credentials { key, project_id: id }),
            Err(e) => Err(e),
        },
    }
}

} // verus!
