//! The response envelope of the HTTP boundary: a success flag, an optional
//! payload, and an optional message, together with the status code. The
//! transport layer owns serialization; this module owns, and pins down,
//! which status and which words each outcome of the core maps to.

use vstd::prelude::*;

use crate::auth::{JWTResponse, LoginError, RefreshError, RegisterError};
use crate::session::ResolveError;

verus! {

/// The JSON body every endpoint answers with.
pub struct JsonResponse<T> {
    pub success: bool,
    pub data: Option<T>,
    pub message: Option<String>,
}

/// A successful body carrying an optional payload.
pub fn json_ok<T>(data: Option<T>) -> (r: JsonResponse<T>)
    ensures
        r.success,
        r.data == data,
        r.message is None,
{
    JsonResponse { success: true, data, message: None }
}

/// A failure body carrying a message.
pub fn json_error(message: &str) -> (r: JsonResponse<String>)
    ensures
        !r.success,
        r.data is None,
        r.message matches Some(m) && m@ == message@,
{
    JsonResponse { success: false, data: None, message: Some(message.to_owned()) }
}

/// A status code together with the body: what the transport layer sends.
pub struct Reply<T> {
    pub status: u16,
    pub body: JsonResponse<T>,
}

/// A failure reply: the status, and a body holding only the message.
pub(crate) fn error_reply<T>(status: u16, message: &str) -> (r: Reply<T>)
    ensures
        r.status == status,
        !r.body.success,
        r.body.data is None,
        r.body.message matches Some(m) && m@ == message@,
{
    Reply {
        status,
        body: JsonResponse { success: false, data: None, message: Some(message.to_owned()) },
    }
}

/// `405 Method Not Allowed`.
pub fn method_not_allowed() -> (r: Reply<()>)
    ensures
        r.status == 405,
        !r.body.success,
        r.body.message matches Some(m) && m@ == "Method not allowed."@,
{
    error_reply(405, "Method not allowed.")
}

/// `404 Not Found`.
pub fn not_found() -> (r: Reply<()>)
    ensures
        r.status == 404,
        !r.body.success,
        r.body.message matches Some(m) && m@ == "Not found."@,
{
    error_reply(404, "Not found.")
}

/// `401 Unauthorized`.
pub fn unauthorized() -> (r: Reply<()>)
    ensures
        r.status == 401,
        !r.body.success,
        r.body.message matches Some(m) && m@ == "Unauthorized."@,
{
    error_reply(401, "Unauthorized.")
}

/// `403 Forbidden`.
pub fn forbidden() -> (r: Reply<()>)
    ensures
        r.status == 403,
        !r.body.success,
        r.body.message matches Some(m) && m@ == "Forbidden."@,
{
    error_reply(403, "Forbidden.")
}

/// `403` for a valid identity without the required capability.
pub fn not_enough_permission() -> (r: Reply<()>)
    ensures
        r.status == 403,
        !r.body.success,
        r.body.message matches Some(m) && m@ == "Not enough permission."@,
{
    error_reply(403, "Not enough permission.")
}

/// `500` with no internal detail in the body.
pub fn internal_server_error() -> (r: Reply<()>)
    ensures
        r.status == 500,
        !r.body.success,
        r.body.message matches Some(m) && m@ == "Unexpected internal server error."@,
{
    error_reply(500, "Unexpected internal server error.")
}

/// The registration endpoint's answer: `200 {success:true}`, or a bare `500`
/// when storage or the random source failed.
pub fn register_reply(r: Result<(), RegisterError>) -> (reply: Reply<()>)
    ensures
        r is Ok ==> reply.status == 200 && reply.body.success && reply.body.message is None,
        r is Err ==> reply.status == 500 && !reply.body.success && (reply.body.message matches Some(
            m,
        ) && m@ == "Unexpected internal server error."@),
{
    match r {
        Ok(()) => Reply { status: 200, body: json_ok(None) },
        Err(_) => error_reply(500, "Unexpected internal server error."),
    }
}

/// The login endpoint's answer: `200` with both tokens, or `404` with the
/// one uniform message for unknown user and wrong password alike.
pub fn login_reply(r: Result<JWTResponse, LoginError>) -> (reply: Reply<JWTResponse>)
    ensures
        r matches Ok(t) ==> {
            &&& reply.status == 200
            &&& reply.body.success
            &&& reply.body.message is None
            &&& (reply.body.data matches Some(d) && d.access_token@ == t.access_token@
                && d.refresh_token@ == t.refresh_token@)
        },
        r is Err ==> {
            &&& reply.status == 404
            &&& !reply.body.success
            &&& reply.body.data is None
            &&& (reply.body.message matches Some(m) && m@ == "Wrong username or password."@)
        },
{
    match r {
        Ok(t) => Reply { status: 200, body: json_ok(Some(t)) },
        Err(LoginError::WrongCredentials) => error_reply(404, "Wrong username or password."),
    }
}

/// The refresh endpoint's answer: `200` with a fresh access token and the
/// unchanged refresh token, or `400` with the message naming what was wrong.
pub fn refresh_reply(r: Result<JWTResponse, RefreshError>) -> (reply: Reply<JWTResponse>)
    ensures
        r matches Ok(t) ==> {
            &&& reply.status == 200
            &&& reply.body.success
            &&& reply.body.message is None
            &&& (reply.body.data matches Some(d) && d.access_token@ == t.access_token@
                && d.refresh_token@ == t.refresh_token@)
        },
        r == Err::<JWTResponse, RefreshError>(RefreshError::NotRefreshToken) ==> {
            &&& reply.status == 400
            &&& !reply.body.success
            &&& (reply.body.message matches Some(m) && m@ == "The token is not a refresh token."@)
        },
        r == Err::<JWTResponse, RefreshError>(RefreshError::InvalidToken) ==> {
            &&& reply.status == 400
            &&& !reply.body.success
            &&& (reply.body.message matches Some(m) && m@ == "The refresh token is invalid."@)
        },
{
    match r {
        Ok(t) => Reply { status: 200, body: json_ok(Some(t)) },
        Err(RefreshError::NotRefreshToken) => error_reply(400, "The token is not a refresh token."),
        Err(RefreshError::InvalidToken) => error_reply(400, "The refresh token is invalid."),
    }
}

/// A failed session resolution as a protected endpoint answers it: `401` for
/// an identity failure, `403` for a permission failure.
pub fn resolve_failure_reply(e: ResolveError) -> (reply: Reply<()>)
    ensures
        e == ResolveError::Unauthorized ==> reply.status == 401 && (reply.body.message matches Some(
            m,
        ) && m@ == "Unauthorized."@),
        e == ResolveError::Forbidden ==> reply.status == 403 && (reply.body.message matches Some(m)
            && m@ == "Not enough permission."@),
        !reply.body.success,
{
    match e {
        ResolveError::Unauthorized => unauthorized(),
        ResolveError::Forbidden => not_enough_permission(),
    }
}

} // verus!
