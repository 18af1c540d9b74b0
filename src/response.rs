use vstd::prelude::*;

use crate::error::ClientError;
use crate::request::is_success;

verus! {

/// The string that serde_json finds under `key` when it parses `text` as a
/// JSON object; `None` when `text` is not such an object or that member is
/// missing or not a string.
pub uninterp spec fn json_str_member(text: Seq<char>, key: Seq<char>) -> Option<Seq<char>>;

/// Relies on serde_json::from_str into serde_json::Value, Value::get and
/// Value::as_str: the string member `key` of the JSON object in `text`.
#[verifier::external_body]
fn str_member(text: &str, key: &str) -> (r: Option<String>)
    ensures
        r is Some <==> json_str_member(text@, key@) is Some,
        r is Some ==> r->Some_0@ == json_str_member(text@, key@)->Some_0,
{
    let value: serde_json::Value = serde_json::from_str(text).ok()?;
    value.get(key)?.as_str().map(|s| s.to_owned())
}

/// The reason that an error reply gives: the `description` member of its
/// JSON body, or else the body itself.
pub open spec fn error_reason(body: Seq<char>) -> Seq<char> {
    match json_str_member(body, "description"@) {
        Some(d) => d,
        None => body,
    }
}

/// `e` is the error for a reply with `status` whose reason is `reason`.
pub open spec fn is_api_error(e: ClientError, status: u16, reason: Seq<char>) -> bool {
    match e {
        ClientError::ApiError { status: s, reason: t } => s == status && t@ == reason,
        _ => false,
    }
}

/// The error for a reply with `status` and `body`, given the description
/// that the body carries, if any: that description, else the raw body.
pub fn api_error(status: u16, body: String, description: Option<String>) -> (e: ClientError)
    ensures
        is_api_error(
            e,
            status,
            match description {
                Some(d) => d@,
                None => body@,
            },
        ),
{
    match description {
        Some(d) => ClientError::ApiError { status, reason: d },
        None => ClientError::ApiError { status, reason: body },
    }
}

/// Interprets a reply: a success status hands the body on for decoding,
/// any other status becomes an API error that keeps the status.
pub fn interpret_response(status: u16, body: String) -> (r: Result<String, ClientError>)
    ensures
        is_success(status) ==> r is Ok && r->Ok_0@ == body@,
        !is_success(status) ==> r is Err && is_api_error(r->Err_0, status, error_reason(body@)),
{
    if 200 <= status && status < 300 {
        Ok(body)
    } else {
        let description = str_member(body.as_str(), "description");
        Err(api_error(status, body, description))
    }
}

/// Interprets what the transport gave back: a failure message becomes a
/// transport error, a reply with status and body is interpreted as above.
pub fn complete(reply: Result<(u16, String), String>) -> (r: Result<String, ClientError>)
    ensures
        reply is Err ==> r is Err && r->Err_0.is_transport(reply->Err_0@),
        reply matches Ok((status, body)) ==> {
            &&& is_success(status) ==> r is Ok && r->Ok_0@ == body@
            &&& !is_success(status) ==> r is Err && is_api_error(
                r->Err_0,
                status,
                error_reason(body@),
            )
        },
{
    match reply {
        Ok((status, body)) => interpret_response(status, body),
        Err(message) => Err(ClientError::TransportError(message)),
    }
}

} // verus!
