//! The logic of one send call: the endpoint, the credentials it needs, the
//! request body, and the decoding of the response.
use vstd::prelude::*;
use crate::error::FcmError;
use crate::json::{body_error, body_name, decimal, decimal_of, decode_error, error_of_body, is_json, json_string_of, name_of_body, parse_json, quote, value_text};
use crate::models::{ErrorResponse, FcmErrorResponse, FcmSendRequest, FcmSendResult, FcmSuccessResponse, Message, Notification};

verus! {

/// The OAuth2 scope that a token for sending messages is requested for.
pub const FCM_SCOPE: &'static str = "https://www.googleapis.com/auth/firebase.messaging";

/// The send endpoint of the project `project_id`.
pub open spec fn endpoint_url(project_id: Seq<char>) -> Seq<char> {
    "https://fcm.googleapis.com/v1/projects/"@ + project_id + "/messages:send"@
}

/// The value of the `Authorization` header that presents `token`.
pub open spec fn bearer(token: Seq<char>) -> Seq<char> {
    "Bearer "@ + token
}

/// The text of an optional string.
pub open spec fn text_of(s: Option<String>) -> Option<Seq<char>> {
    match s {
        Some(t) => Some(t@),
        None => None,
    }
}

/// The JSON text of an optional string: its string literal, or nothing.
pub open spec fn json_text_opt(s: Option<String>) -> Option<Seq<char>> {
    match s {
        Some(t) => Some(json_string_of(t@)),
        None => None,
    }
}

/// One member of a JSON object: the quoted key, a colon, and the value's
/// JSON text, `null` where there is none.
pub open spec fn json_member(key: Seq<char>, value: Option<Seq<char>>) -> Seq<char> {
    "\""@ + key + "\":"@ + match value {
        Some(v) => v,
        None => "null"@,
    }
}

/// The JSON object of a notification.
pub open spec fn notification_json(n: Notification) -> Seq<char> {
    "{"@ + json_member("title"@, json_text_opt(n.title)) + ","@ + json_member(
        "body"@,
        json_text_opt(n.body),
    ) + "}"@
}

/// The JSON object of a message whose data payload, if any, is written as `data`.
pub open spec fn message_json(m: Message, data: Option<Seq<char>>) -> Seq<char> {
    "{"@ + json_member("token"@, json_text_opt(m.token)) + ","@ + json_member(
        "notification"@,
        match m.notification {
            Some(n) => Some(notification_json(n)),
            None => None,
        },
    ) + ","@ + json_member("data"@, data) + "}"@
}

/// The request envelope `{"message": ...}` around a message.
pub open spec fn request_json(m: Message, data: Option<Seq<char>>) -> Seq<char> {
    "{"@ + json_member("message"@, Some(message_json(m, data))) + "}"@
}

/// Builds the URL of the send endpoint of the project `project_id`.
pub fn build_url(project_id: &str) -> (r: String)
    ensures
        r@ == endpoint_url(project_id@),
{
    let mut url = String::from_str("https://fcm.googleapis.com/v1/projects/");
    url.append(project_id);
    url.append("/messages:send");
    url
}

/// Builds the value of the `Authorization` header for an access token.
pub fn authorization_value(token: &str) -> (r: String)
    ensures
        r@ == bearer(token@),
{
    let mut value = String::from_str("Bearer ");
    value.append(token);
    value
}

/// Takes the text of an access token, or reports that the token provider
/// handed out a token without one.
pub fn token_text(token: Option<&str>) -> (r: Result<String, FcmError>)
    ensures
        token is Some ==> r is Ok && r->Ok_0@ == token->Some_0@,
        token is None ==> (r matches Err(FcmError::AuthError(m))
            && m@ == "Failed to retrieve token from authenticator"@),
{
    match token {
        Some(t) => Ok(t.to_owned()),
        None => Err(FcmError::AuthError(String::from_str("Failed to retrieve token from authenticator"))),
    }
}

/// Appends one object member, `"key":value`, to `out`.
fn write_member(out: &mut String, key: &str, value: &Option<String>)
    ensures
        final(out)@ == old(out)@ + json_member(key@, text_of(*value)),
{
    let ghost start = out@;
    out.append("\"");
    out.append(key);
    out.append("\":");
    match value {
        Some(v) => out.append(v.as_str()),
        None => out.append("null"),
    }
    assert(out@ =~= start + json_member(key@, text_of(*value)));
}

/// The JSON string literal of an optional string.
fn quote_opt(s: &Option<String>) -> (r: Option<String>)
    ensures
        text_of(r) == json_text_opt(*s),
{
    match s {
        Some(t) => Some(quote(t.as_str())),
        None => None,
    }
}

/// Writes the JSON object of a notification.
fn notification_text(n: &Notification) -> (r: String)
    ensures
        r@ == notification_json(*n),
{
    let mut out = String::from_str("{");
    write_member(&mut out, "title", &quote_opt(&n.title));
    out.append(",");
    write_member(&mut out, "body", &quote_opt(&n.body));
    out.append("}");
    assert(out@ =~= notification_json(*n));
    out
}

/// Writes the request body of a send call for `message` whose data payload,
/// if any, is already written as the JSON text `data_text`: the envelope
/// `{"message": ...}` with every field of the message, `null` for those that
/// are absent.
pub fn compose_request(message: &Message, data_text: Option<String>) -> (r: String)
    ensures
        r@ == request_json(*message, text_of(data_text)),
{
    let notification: Option<String> = match &message.notification {
        Some(n) => Some(notification_text(n)),
        None => None,
    };
    let mut msg = String::from_str("{");
    write_member(&mut msg, "token", &quote_opt(&message.token));
    msg.append(",");
    write_member(&mut msg, "notification", &notification);
    msg.append(",");
    write_member(&mut msg, "data", &data_text);
    msg.append("}");
    assert(msg@ =~= message_json(*message, text_of(data_text)));
    let mut out = String::from_str("{");
    write_member(&mut out, "message", &Some(msg));
    out.append("}");
    assert(out@ =~= request_json(*message, text_of(data_text)));
    out
}

/// Writes the request body of a send call: the data payload, if any, as
/// compact JSON, inside the envelope that `compose_request` writes.
pub fn request_body(request: &FcmSendRequest) -> (r: String)
    ensures
        exists|d: Option<Seq<char>>|
            (d is Some <==> request.message.data is Some) && r@ == #[trigger] request_json(request.message, d),
{
    let data: Option<String> = match &request.message.data {
        Some(v) => Some(value_text(v)),
        None => None,
    };
    let r = compose_request(&request.message, data);
    assert(r@ == request_json(request.message, text_of(data)));
    r
}

/// The items' texts separated by commas.
pub open spec fn joined(items: Seq<Seq<char>>) -> Seq<char>
    decreases items.len(),
{
    if items.len() == 0 {
        Seq::empty()
    } else if items.len() == 1 {
        items[0]
    } else {
        joined(items.drop_last()) + ","@ + items.last()
    }
}

/// The texts of a sequence of strings.
pub open spec fn views(items: Seq<String>) -> Seq<Seq<char>> {
    items.map_values(|s: String| s@)
}

/// The JSON object of a server error whose details are written as `details`,
/// members in the order of their keys.
pub open spec fn error_response_json(e: ErrorResponse, details: Seq<Seq<char>>) -> Seq<char> {
    "{"@ + json_member(
        "error"@,
        Some(
            "{"@ + json_member("code"@, Some(decimal_of(e.code as nat))) + ","@ + json_member(
                "details"@,
                Some("["@ + joined(details) + "]"@),
            ) + ","@ + json_member("message"@, Some(json_string_of(e.message@))) + ","@ + json_member(
                "status"@,
                Some(json_string_of(e.status@)),
            ) + "}"@,
        ),
    ) + "}"@
}

/// Appends the JSON array of already written items to `out`.
fn write_list(out: &mut String, items: &Vec<String>)
    ensures
        final(out)@ == old(out)@ + "["@ + joined(views(items@)) + "]"@,
{
    let ghost start = out@;
    out.append("[");
    let mut i: usize = 0;
    while i < items.len()
        invariant
            0 <= i <= items.len(),
            out@ == start + "["@ + joined(views(items@.take(i as int))),
        decreases items.len() - i,
    {
        let ghost before = out@;
        if i > 0 {
            out.append(",");
        }
        out.append(items[i].as_str());
        proof {
            let next = views(items@.take(i + 1));
            assert(next.drop_last() =~= views(items@.take(i as int)));
            assert(next.last() == items@[i as int]@);
            if i == 0 {
                assert(joined(views(items@.take(0))) =~= Seq::<char>::empty());
                assert(out@ =~= start + "["@ + joined(next));
            } else {
                assert(out@ =~= start + "["@ + joined(next));
            }
        }
        i += 1;
    }
    assert(items@.take(items.len() as int) =~= items@);
    out.append("]");
    assert(out@ =~= start + "["@ + joined(views(items@)) + "]"@);
}

/// Writes the JSON object of a server error whose details are already
/// written as the JSON texts `details_text`.
pub fn compose_error_response(e: &ErrorResponse, details_text: &Vec<String>) -> (r: String)
    ensures
        r@ == error_response_json(*e, views(details_text@)),
{
    let mut inner = String::from_str("{");
    write_member(&mut inner, "code", &Some(decimal(e.code)));
    inner.append(",");
    let mut list = String::new();
    write_list(&mut list, details_text);
    write_member(&mut inner, "details", &Some(list));
    inner.append(",");
    write_member(&mut inner, "message", &Some(quote(e.message.as_str())));
    inner.append(",");
    write_member(&mut inner, "status", &Some(quote(e.status.as_str())));
    inner.append("}");
    let mut out = String::from_str("{");
    write_member(&mut out, "error", &Some(inner));
    out.append("}");
    assert(out@ =~= error_response_json(*e, views(details_text@)));
    out
}

impl FcmErrorResponse {
    /// The error as JSON text, each detail written as compact JSON.
    pub fn to_json(&self) -> (r: String)
        ensures
            exists|ds: Seq<Seq<char>>|
                ds.len() == self.error.details@.len() && r@ == #[trigger] error_response_json(self.error, ds),
    {
        let mut texts: Vec<String> = Vec::new();
        let mut i: usize = 0;
        while i < self.error.details.len()
            invariant
                0 <= i <= self.error.details.len(),
                texts@.len() == i,
            decreases self.error.details.len() - i,
        {
            texts.push(value_text(&self.error.details[i]));
            i += 1;
        }
        let r = compose_error_response(&self.error, &texts);
        assert(views(texts@).len() == self.error.details@.len());
        assert(r@ == error_response_json(self.error, views(texts@)));
        r
    }
}

/// The response shape that a body matches: the success shape first, then the
/// error shape, else none.
pub open spec fn shape_result(success: Option<FcmSuccessResponse>, error: Option<FcmErrorResponse>) -> Option<FcmSendResult> {
    match success {
        Some(s) => Some(FcmSendResult::Success(s)),
        None => match error {
            Some(e) => Some(FcmSendResult::Error(e)),
            None => None,
        },
    }
}

/// Assembles the error record from the members read from the `error` object:
/// present only when all four are present and the code fits in a `usize`.
pub fn error_from_parts(
    code: Option<u64>,
    message: Option<String>,
    status: Option<String>,
    details: Option<Vec<serde_json::Value>>,
) -> (r: Option<FcmErrorResponse>)
    ensures
        r is Some <==> (code is Some && code->Some_0 <= usize::MAX && message is Some && status is Some
            && details is Some),
        r is Some ==> r->Some_0.error == (ErrorResponse {
            code: code->Some_0 as usize,
            message: message->Some_0,
            status: status->Some_0,
            details: details->Some_0,
        }),
{
    match (code, message, status, details) {
        (Some(c), Some(m), Some(s), Some(d)) => {
            if c <= usize::MAX as u64 {
                Some(FcmErrorResponse { error: ErrorResponse { code: c as usize, message: m, status: s, details: d } })
            } else {
                None
            }
        },
        _ => None,
    }
}

/// Tells the two response shapes apart: a body that matches the success
/// shape is a success, else one that matches the error shape is an error.
pub fn classify(success: Option<FcmSuccessResponse>, error: Option<FcmErrorResponse>) -> (r: Option<FcmSendResult>)
    ensures
        r == shape_result(success, error),
{
    match success {
        Some(s) => Some(FcmSendResult::Success(s)),
        None => match error {
            Some(e) => Some(FcmSendResult::Error(e)),
            None => None,
        },
    }
}

/// Whether `x` holds the code, message, status and number of details `parts`.
pub open spec fn error_matches(x: FcmErrorResponse, parts: (nat, Seq<char>, Seq<char>, nat)) -> bool {
    &&& x.error.code == parts.0
    &&& x.error.message@ == parts.1
    &&& x.error.status@ == parts.2
    &&& x.error.details.len() == parts.3
}

/// What decoding the response body `body` gives: text that is no JSON is a
/// `JsonError`; a body with a string member `name` is a success with that
/// name; else a body of the error shape whose code fits a `usize` is a
/// `ResponseError` with its members; anything else is a `JsonError`.
pub open spec fn decodes_to(body: Seq<char>, r: Result<FcmSuccessResponse, FcmError>) -> bool {
    &&& !is_json(body) ==> (r matches Err(FcmError::JsonError(_)))
    &&& name_of_body(body) is Some ==> (r matches Ok(s) && s.name@ == name_of_body(body)->Some_0)
    &&& (name_of_body(body) is None && error_of_body(body) is Some && error_of_body(body)->Some_0.0
        <= usize::MAX) ==> (r matches Err(FcmError::ResponseError(x)) && error_matches(
        x,
        error_of_body(body)->Some_0,
    ))
    &&& (is_json(body) && name_of_body(body) is None && (error_of_body(body) is None || error_of_body(
        body,
    )->Some_0.0 > usize::MAX)) ==> (r matches Err(FcmError::JsonError(_)))
}

/// Decodes a response body: the success shape if it matches, else the error
/// shape as `FcmError::ResponseError`, else a `JsonError`, also for a body
/// that is no JSON at all.
pub fn decode_response(body: &str) -> (r: Result<FcmSuccessResponse, FcmError>)
    ensures
        decodes_to(body@, r),
{
    let success = match body_name(body) {
        Some(name) => Some(FcmSuccessResponse { name }),
        None => None,
    };
    let error = match body_error(body) {
        Some((code, message, status, details)) => error_from_parts(Some(code), Some(message), Some(status), Some(details)),
        None => None,
    };
    match classify(success, error) {
        Some(shape) => shape.into(),
        None => match parse_json(body) {
            Err(e) => Err(FcmError::JsonError(e)),
            Ok(_) => Err(FcmError::JsonError(decode_error("data did not match any variant of untagged enum FcmSendResult"))),
        },
    }
}

/// Finishes a send call once the transport has answered: a transport failure
/// is a `RequestError` and produces nothing else; a response body is decoded.
pub fn finish_send(transport: Result<String, reqwest::Error>) -> (r: Result<FcmSuccessResponse, FcmError>)
    ensures
        transport is Err ==> r == Err::<FcmSuccessResponse, FcmError>(FcmError::RequestError(transport->Err_0)),
        transport is Ok ==> decodes_to(transport->Ok_0@, r),
{
    match transport {
        Err(e) => Err(FcmError::RequestError(e)),
        Ok(body) => decode_response(body.as_str()),
    }
}

} // verus!
