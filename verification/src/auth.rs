//! Access control: whether a request may pass, decided in two steps
//! around the check of its session with the authentication service.

use vstd::prelude::*;
use vstd::utf8::{decode_utf8, valid_utf8};
use crate::rpc::{RpcCode, RpcStatus};

verus! {

/// What the gRPC front end does with a call next.
#[derive(Debug, PartialEq, Eq)]
pub enum GrpcAccess {
    /// Let the call through.
    Allow,
    /// Refuse the call with this status.
    Reject(RpcStatus),
    /// Ask the authentication service whether this token names a valid
    /// session, then decide with `grpc_access_finish`.
    CheckSession(String),
}

/// What the HTTP front end does with a request next.
#[derive(Debug, PartialEq, Eq)]
pub enum HttpAccess {
    /// Let the request through.
    Allow,
    /// Refuse the request: 401 "Unauthorized".
    Reject,
    /// Ask the authentication service whether this token names a valid
    /// session, then decide with `http_access_finish`.
    CheckSession(String),
}

/// The message of a call whose session the service declared invalid.
pub open spec fn invalid_token_message() -> Seq<char> {
    "Invalid token"@
}

/// The message of a call without a session that could be checked.
pub open spec fn invalid_session_message() -> Seq<char> {
    "Invalid session"@
}

/// What the first step for a gRPC call decides: with authentication off
/// every call passes; with it on, a call without a token, or whose token is
/// not UTF-8, is refused as an invalid session, and any other call has its
/// token checked.
pub open spec fn grpc_start_meets(auth_enabled: bool, token: Option<Seq<u8>>, r: GrpcAccess) -> bool {
    if !auth_enabled {
        r == GrpcAccess::Allow
    } else {
        match token {
            Some(t) => if valid_utf8(t) {
                r matches GrpcAccess::CheckSession(s) && s@ == decode_utf8(t)
            } else {
                r matches GrpcAccess::Reject(st) && st.code == RpcCode::Unauthenticated
                    && st.message@ == invalid_session_message()
            },
            None => r matches GrpcAccess::Reject(st) && st.code == RpcCode::Unauthenticated
                && st.message@ == invalid_session_message(),
        }
    }
}

/// What the second step for a gRPC call decides from the session check's
/// answer (`None` when the check failed): a valid session passes, an
/// invalid one is refused as an invalid token, a failed check as an
/// invalid session.
pub open spec fn grpc_finish_meets(session: Option<bool>, r: Result<(), RpcStatus>) -> bool {
    match session {
        Some(true) => r is Ok,
        Some(false) => r matches Err(st) && st.code == RpcCode::Unauthenticated
            && st.message@ == invalid_token_message(),
        None => r matches Err(st) && st.code == RpcCode::Unauthenticated
            && st.message@ == invalid_session_message(),
    }
}

/// What the first step for an HTTP request decides: with authentication
/// off every request passes; with it on, a request without the token
/// header is refused, and any other has the header's text checked.
pub open spec fn http_start_meets(auth_enabled: bool, token: Option<Seq<char>>, r: HttpAccess) -> bool {
    if !auth_enabled {
        r == HttpAccess::Allow
    } else {
        match token {
            Some(t) => r matches HttpAccess::CheckSession(s) && s@ == t,
            None => r == HttpAccess::Reject,
        }
    }
}

/// What the second step for an HTTP request decides: only a session that
/// the check declared valid passes.
pub open spec fn http_finish_meets(session: Option<bool>, r: HttpAccess) -> bool {
    if session == Some(true) {
        r == HttpAccess::Allow
    } else {
        r == HttpAccess::Reject
    }
}

/// A gRPC call passes the two steps exactly when authentication is off, or
/// when it carries a UTF-8 token whose session the service declared valid;
/// and the token that is checked is the one the call carried.
pub proof fn grpc_access_law(
    auth_enabled: bool,
    token: Option<Seq<u8>>,
    first: GrpcAccess,
    session: Option<bool>,
    second: Result<(), RpcStatus>,
)
    requires
        grpc_start_meets(auth_enabled, token, first),
        grpc_finish_meets(session, second),
    ensures
        (first == GrpcAccess::Allow || (first is CheckSession && second is Ok)) <==> (!auth_enabled || (
        token matches Some(t) && valid_utf8(t) && session == Some(true))),
        first matches GrpcAccess::CheckSession(s) ==> token matches Some(t) && s@ == decode_utf8(t),
{
}

/// An HTTP request passes the two steps exactly when authentication is
/// off, or when it carries the token header and the service declared that
/// token's session valid; and the token that is checked is the header's
/// text.
pub proof fn http_access_law(
    auth_enabled: bool,
    token: Option<Seq<char>>,
    first: HttpAccess,
    session: Option<bool>,
    second: HttpAccess,
)
    requires
        http_start_meets(auth_enabled, token, first),
        http_finish_meets(session, second),
    ensures
        (first == HttpAccess::Allow || (first is CheckSession && second == HttpAccess::Allow)) <==> (
        !auth_enabled || (token is Some && session == Some(true))),
        first matches HttpAccess::CheckSession(s) ==> token == Some(s@),
{
}

/// Calls `String::from_utf8`. Claimed, as std documents it: it succeeds
/// exactly on valid UTF-8, and then holds the characters that the bytes
/// encode.
#[verifier::external_body]
fn utf8_text(bytes: Vec<u8>) -> (r: Option<String>)
    ensures
        r is Some <==> valid_utf8(bytes@),
        r matches Some(s) ==> s@ == decode_utf8(bytes@),
{
    String::from_utf8(bytes).ok()
}

fn invalid_session() -> (s: RpcStatus)
    ensures
        s.code == RpcCode::Unauthenticated,
        s.message@ == invalid_session_message(),
{
    RpcStatus { code: RpcCode::Unauthenticated, message: "Invalid session".to_owned() }
}

/// The first step for a gRPC call, given whether authentication is on and
/// the bytes of the call's `token` metadata, when it has one: with
/// authentication off every call passes; with it on, a call without a
/// token, or whose token is not UTF-8, is refused as an invalid session,
/// and any other call has its token checked.
pub fn grpc_access_start(auth_enabled: bool, token: Option<Vec<u8>>) -> (r: GrpcAccess)
    ensures
        grpc_start_meets(auth_enabled, token.deep_view(), r),
{
    if !auth_enabled {
        return GrpcAccess::Allow;
    }
    match token {
        Some(bytes) => {
            assert(bytes.deep_view() =~= bytes@);
            match utf8_text(bytes) {
                Some(text) => GrpcAccess::CheckSession(text),
                None => GrpcAccess::Reject(invalid_session()),
            }
        },
        None => GrpcAccess::Reject(invalid_session()),
    }
}

/// The second step for a gRPC call, given what the session check
/// answered: `Some(valid)`, or `None` when it failed. A valid session
/// passes; an invalid one is refused as an invalid token; a failed check
/// as an invalid session.
pub fn grpc_access_finish(session: Option<bool>) -> (r: Result<(), RpcStatus>)
    ensures
        grpc_finish_meets(session, r),
{
    match session {
        Some(true) => Ok(()),
        Some(false) => Err(RpcStatus { code: RpcCode::Unauthenticated, message: "Invalid token".to_owned() }),
        None => Err(invalid_session()),
    }
}

/// The first step for an HTTP request, given whether authentication is on
/// and the text of the request's header that is named by the configured
/// token (see `get_header`): with authentication off every request
/// passes; with it on, a request without that header is refused, and any
/// other has the header's text checked as a session token.
pub fn http_access_start(auth_enabled: bool, token: Option<String>) -> (r: HttpAccess)
    ensures
        http_start_meets(auth_enabled, token.deep_view(), r),
{
    if !auth_enabled {
        return HttpAccess::Allow;
    }
    match token {
        Some(t) => HttpAccess::CheckSession(t),
        None => HttpAccess::Reject,
    }
}

/// The second step for an HTTP request, given what the session check
/// answered (`None` when it failed): only a valid session passes.
pub fn http_access_finish(session: Option<bool>) -> (r: HttpAccess)
    ensures
        http_finish_meets(session, r),
{
    match session {
        Some(true) => HttpAccess::Allow,
        _ => HttpAccess::Reject,
    }
}

} // verus!
