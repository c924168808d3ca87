use fcm_rust::client::{
    authorization_value, build_url, classify, compose_error_response, compose_request, decode_response, error_from_parts, finish_send, request_body,
    token_text, FCM_SCOPE,
};
use fcm_rust::credentials::{load_credentials, resolve_project_id};
use fcm_rust::error::FcmError;
use fcm_rust::models::{ErrorResponse, FcmErrorResponse, FcmSendRequest, FcmSendResult, FcmSuccessResponse, Message, Notification};
use serde_json::Value;

fn full_message() -> Message {
    Message {
        token: Some("device-token".to_string()),
        notification: Some(Notification {
            title: Some("Hello from Rust!".to_string()),
            body: Some("This is a test notification.".to_string()),
        }),
        data: Some(serde_json::from_str::<Value>(r#"{"k":"v","n":3}"#).unwrap()),
    }
}

#[test]
fn request_round_trips_through_json() {
    let body = request_body(&FcmSendRequest { message: full_message() });
    let parsed: Value = serde_json::from_str(&body).unwrap();
    let m = parsed.get("message").unwrap();
    assert_eq!(m.get("token").unwrap().as_str(), Some("device-token"));
    let n = m.get("notification").unwrap();
    assert_eq!(n.get("title").unwrap().as_str(), Some("Hello from Rust!"));
    assert_eq!(n.get("body").unwrap().as_str(), Some("This is a test notification."));
    let data = m.get("data").unwrap();
    assert_eq!(data, &serde_json::from_str::<Value>(r#"{"k":"v","n":3}"#).unwrap());
}

#[test]
fn request_round_trip_keeps_absent_fields_absent() {
    let message = Message {
        token: None,
        notification: Some(Notification { title: Some("t".to_string()), body: None }),
        data: None,
    };
    let body = request_body(&FcmSendRequest { message });
    let parsed: Value = serde_json::from_str(&body).unwrap();
    let m = parsed.get("message").unwrap();
    assert!(m.get("token").unwrap().is_null());
    assert!(m.get("data").unwrap().is_null());
    let n = m.get("notification").unwrap();
    assert_eq!(n.get("title").unwrap().as_str(), Some("t"));
    assert!(n.get("body").unwrap().is_null());
}

#[test]
fn request_round_trip_keeps_special_characters() {
    let text = "quote \" backslash \\ newline \n tab \t é";
    let message = Message { token: Some(text.to_string()), notification: None, data: None };
    let body = request_body(&FcmSendRequest { message });
    assert!(body.contains(r#"quote \" backslash \\ newline \n tab \t"#));
    let parsed: Value = serde_json::from_str(&body).unwrap();
    assert_eq!(parsed.get("message").unwrap().get("token").unwrap().as_str(), Some(text));
}

#[test]
fn request_body_exact_text() {
    let message = Message {
        token: Some("t".to_string()),
        notification: Some(Notification { title: Some("a".to_string()), body: Some("b".to_string()) }),
        data: None,
    };
    assert_eq!(
        request_body(&FcmSendRequest { message }),
        r#"{"message":{"token":"t","notification":{"title":"a","body":"b"},"data":null}}"#
    );
    let empty = Message { token: None, notification: None, data: None };
    assert_eq!(
        request_body(&FcmSendRequest { message: empty }),
        r#"{"message":{"token":null,"notification":null,"data":null}}"#
    );
}

#[test]
fn request_body_writes_data_compactly() {
    let message = Message { token: None, notification: None, data: Some(serde_json::from_str(r#"{ "a" : [1, 2] }"#).unwrap()) };
    assert_eq!(
        request_body(&FcmSendRequest { message }),
        r#"{"message":{"token":null,"notification":null,"data":{"a":[1,2]}}}"#
    );
}

#[test]
fn url_and_header() {
    assert_eq!(build_url("login-80680"), "https://fcm.googleapis.com/v1/projects/login-80680/messages:send");
    assert_eq!(build_url(""), "https://fcm.googleapis.com/v1/projects//messages:send");
    assert_eq!(authorization_value("abc.def"), "Bearer abc.def");
    assert_eq!(FCM_SCOPE, "https://www.googleapis.com/auth/firebase.messaging");
}

#[test]
fn token_text_present_and_missing() {
    assert_eq!(token_text(Some("tok")).unwrap(), "tok");
    match token_text(None) {
        Err(FcmError::AuthError(m)) => assert_eq!(m, "Failed to retrieve token from authenticator"),
        other => panic!("unexpected {:?}", other),
    }
}

#[test]
fn missing_project_id_is_auth_error() {
    match resolve_project_id(None, None) {
        Err(FcmError::AuthError(m)) => assert_eq!(m, "Service account key JSON file missing project ID"),
        other => panic!("unexpected {:?}", other),
    }
}

#[test]
fn project_id_choice() {
    assert_eq!(resolve_project_id(Some("x".to_string()), Some("y".to_string())).unwrap(), "x");
    assert_eq!(resolve_project_id(Some("x".to_string()), None).unwrap(), "x");
    assert_eq!(resolve_project_id(None, Some("y".to_string())).unwrap(), "y");
}

#[test]
fn success_body_gives_name() {
    let r = finish_send(Ok(r#"{"name":"projects/p/messages/123"}"#.to_string()));
    assert_eq!(r.unwrap().name, "projects/p/messages/123");
}

#[test]
fn success_body_with_extra_members() {
    let r = decode_response(r#"{"name":"n1","other":true}"#);
    assert_eq!(r.unwrap().name, "n1");
}

#[test]
fn error_body_gives_response_error() {
    let body = r#"{"error":{"code":404,"message":"Not Found","status":"NOT_FOUND","details":[]}}"#;
    match finish_send(Ok(body.to_string())) {
        Err(FcmError::ResponseError(e)) => {
            assert_eq!(e.error.code, 404);
            assert_eq!(e.error.status, "NOT_FOUND");
            assert_eq!(e.error.message, "Not Found");
            assert!(e.error.details.is_empty());
        },
        other => panic!("unexpected {:?}", other),
    }
}

#[test]
fn error_body_keeps_details() {
    let body = r#"{"error":{"code":400,"message":"Bad","status":"INVALID_ARGUMENT","details":[{"a":1},2]}}"#;
    match decode_response(body) {
        Err(FcmError::ResponseError(e)) => {
            assert_eq!(e.error.code, 400);
            assert_eq!(e.error.details.len(), 2);
            assert_eq!(e.error.details[1], serde_json::from_str::<Value>("2").unwrap());
        },
        other => panic!("unexpected {:?}", other),
    }
}

#[test]
fn malformed_body_is_json_error() {
    assert!(matches!(finish_send(Ok(r#"{}""#.to_string())), Err(FcmError::JsonError(_))));
    assert!(matches!(decode_response("not json"), Err(FcmError::JsonError(_))));
}

#[test]
fn body_of_neither_shape_is_json_error() {
    assert!(matches!(decode_response("{}"), Err(FcmError::JsonError(_))));
    assert!(matches!(decode_response(r#"{"name":5}"#), Err(FcmError::JsonError(_))));
    let no_details = r#"{"error":{"code":404,"message":"Not Found","status":"NOT_FOUND"}}"#;
    assert!(matches!(decode_response(no_details), Err(FcmError::JsonError(_))));
    let negative = r#"{"error":{"code":-1,"message":"m","status":"s","details":[]}}"#;
    assert!(matches!(decode_response(negative), Err(FcmError::JsonError(_))));
}

#[test]
fn connection_refused_is_request_error() {
    let runtime = tokio::runtime::Runtime::new().unwrap();
    let transport = runtime.block_on(async {
        let response = reqwest::Client::new().post("http://127.0.0.1:1/").body("{}").send().await?;
        response.text().await
    });
    assert!(transport.is_err());
    assert!(matches!(finish_send(transport), Err(FcmError::RequestError(_))));
}

fn sample_error() -> FcmErrorResponse {
    FcmErrorResponse {
        error: ErrorResponse { code: 500, message: "m".to_string(), status: "INTERNAL".to_string(), details: vec![] },
    }
}

#[test]
fn classify_prefers_success() {
    let s = FcmSuccessResponse { name: "n".to_string() };
    match classify(Some(s.clone()), Some(sample_error())) {
        Some(FcmSendResult::Success(x)) => assert_eq!(x.name, "n"),
        other => panic!("unexpected {:?}", other),
    }
    match classify(None, Some(sample_error())) {
        Some(FcmSendResult::Error(e)) => assert_eq!(e.error.code, 500),
        other => panic!("unexpected {:?}", other),
    }
    assert!(classify(None, None).is_none());
}

#[test]
fn send_result_into_result() {
    let ok: Result<FcmSuccessResponse, FcmError> = FcmSendResult::Success(FcmSuccessResponse { name: "n".to_string() }).into();
    assert_eq!(ok.unwrap().name, "n");
    let err: Result<FcmSuccessResponse, FcmError> = FcmSendResult::Error(sample_error()).into();
    assert!(matches!(err, Err(FcmError::ResponseError(e)) if e.error.status == "INTERNAL"));
}

#[test]
fn error_parts_need_every_member() {
    let e = error_from_parts(Some(7), Some("m".to_string()), Some("s".to_string()), Some(vec![])).unwrap();
    assert_eq!(e.error.code, 7);
    assert_eq!(e.error.message, "m");
    assert_eq!(e.error.status, "s");
    assert!(error_from_parts(None, Some("m".to_string()), Some("s".to_string()), Some(vec![])).is_none());
    assert!(error_from_parts(Some(7), None, Some("s".to_string()), Some(vec![])).is_none());
    assert!(error_from_parts(Some(7), Some("m".to_string()), None, Some(vec![])).is_none());
    assert!(error_from_parts(Some(7), Some("m".to_string()), Some("s".to_string()), None).is_none());
}

fn key_json(project: Option<&str>) -> String {
    let project_member = match project {
        Some(p) => format!(r#""project_id":"{}","#, p),
        None => String::new(),
    };
    format!(
        r#"{{"type":"service_account",{}"private_key":"SECRET-REDACTED","client_email":"svc@example.iam.gserviceaccount.com","token_uri":"https://oauth2.googleapis.com/token"}}"#,
        project_member
    )
}

#[test]
fn key_without_project_is_auth_error() {
    match load_credentials(key_json(None).as_bytes(), None) {
        Err(FcmError::AuthError(m)) => assert_eq!(m, "Service account key JSON file missing project ID"),
        other => panic!("unexpected {:?}", other),
    }
}

#[test]
fn key_project_and_explicit_project() {
    let named = load_credentials(key_json(Some("from-key")).as_bytes(), None).unwrap();
    assert_eq!(named.project_id, "from-key");
    let explicit = load_credentials(key_json(Some("from-key")).as_bytes(), Some("login-80680".to_string())).unwrap();
    assert_eq!(explicit.project_id, "login-80680");
    let only_explicit = load_credentials(key_json(None).as_bytes(), Some("login-80680".to_string())).unwrap();
    assert_eq!(only_explicit.project_id, "login-80680");
    assert_eq!(only_explicit.key.client_email, "svc@example.iam.gserviceaccount.com");
}

#[test]
fn malformed_key_is_auth_error() {
    match load_credentials(b"{not json", Some("p".to_string())) {
        Err(FcmError::AuthError(m)) => assert!(m.starts_with("Bad service account key: ")),
        other => panic!("unexpected {:?}", other),
    }
    assert!(matches!(load_credentials(br#"{"project_id":"p"}"#, None), Err(FcmError::AuthError(_))));
}

#[test]
fn body_with_both_shapes_is_success() {
    let body = r#"{"name":"n","error":{"code":500,"message":"m","status":"INTERNAL","details":[]}}"#;
    assert_eq!(decode_response(body).unwrap().name, "n");
}

#[test]
fn compose_request_uses_given_data_text() {
    let message = Message { token: Some("t".to_string()), notification: None, data: None };
    assert_eq!(
        compose_request(&message, Some("[1]".to_string())),
        r#"{"message":{"token":"t","notification":null,"data":[1]}}"#
    );
    assert_eq!(compose_request(&message, None), r#"{"message":{"token":"t","notification":null,"data":null}}"#);
}

#[test]
fn control_characters_are_escaped() {
    let message = Message { token: Some("a\u{1}\u{8}\u{c}\r\u{1f}".to_string()), notification: None, data: None };
    assert_eq!(
        request_body(&FcmSendRequest { message }),
        r#"{"message":{"token":"a\u0001\b\f\r\u001f","notification":null,"data":null}}"#
    );
}

#[test]
fn error_response_to_json() {
    let body = r#"{"error":{"code":404,"message":"Not Found","status":"NOT_FOUND","details":[]}}"#;
    match decode_response(body) {
        Err(FcmError::ResponseError(e)) => {
            assert_eq!(e.to_json(), r#"{"error":{"code":404,"details":[],"message":"Not Found","status":"NOT_FOUND"}}"#)
        },
        other => panic!("unexpected {:?}", other),
    }
    let with_details = r#"{"error":{"code":0,"message":"q\"","status":"S","details":[{"a":1}, 2]}}"#;
    match decode_response(with_details) {
        Err(FcmError::ResponseError(e)) => {
            assert_eq!(e.to_json(), r#"{"error":{"code":0,"details":[{"a":1},2],"message":"q\"","status":"S"}}"#)
        },
        other => panic!("unexpected {:?}", other),
    }
}

#[test]
fn compose_error_response_uses_given_texts() {
    let e = ErrorResponse { code: 1234567, message: "m".to_string(), status: "s".to_string(), details: vec![] };
    assert_eq!(
        compose_error_response(&e, &vec!["1".to_string(), "true".to_string(), "{}".to_string()]),
        r#"{"error":{"code":1234567,"details":[1,true,{}],"message":"m","status":"s"}}"#
    );
}
