//! The gRPC service: its parts, the bearer token of a call, and the paging
//! of the post list.
use vstd::prelude::*;
use vstd::string::*;
use std::sync::Arc;
use crate::application::auth_service::AuthService;
use crate::application::blog_service::BlogService;
use crate::domain::GrpcCode;
use crate::jwt::{Claims, JwtError, JwtService, TOKEN_LEEWAY_SECS, clock_seconds, token_claims};
use crate::presentation::{DEFAULT_LIST_LIMIT, DEFAULT_LIST_OFFSET};

verus! {

/// The gRPC service: the authentication and blog services and the token
/// service it shares with the HTTP front end.
pub struct BlogGrpcService {
    pub auth_service: Arc<AuthService>,
    pub blog_service: Arc<BlogService>,
    pub jwt_service: Arc<JwtService>,
}

impl BlogGrpcService {
    pub fn new(auth_service: Arc<AuthService>, blog_service: Arc<BlogService>, jwt_service: Arc<JwtService>) -> (r: Self)
        ensures
            r.auth_service == auth_service,
            r.blog_service == blog_service,
            r.jwt_service == jwt_service,
    {
        BlogGrpcService { auth_service, blog_service, jwt_service }
    }
}

/// The `authorization` entry of a call's metadata.
#[derive(Debug)]
pub enum AuthHeader {
    Missing,
    /// Present, but not visible ASCII; the reason.
    NotText(String),
    Text(String),
}

/// `s` starts with `prefix`.
pub open spec fn starts_with(s: Seq<char>, prefix: Seq<char>) -> bool {
    prefix.len() <= s.len() && s.subrange(0, prefix.len() as int) == prefix
}

/// The bearer token of a call: what follows `Bearer ` in its authorization
/// entry. A missing entry, one that is not text, or one without that prefix
/// leaves the call unauthenticated.
pub fn get_auth_token(header: AuthHeader) -> (r: Result<String, (GrpcCode, String)>)
    ensures
        header is Missing ==> (r matches Err((code, m)) && code is Unauthenticated
            && m@ == "missing authorization header"@),
        header matches AuthHeader::NotText(e) ==> (r matches Err((code, m)) && code is Unauthenticated && m@ == e@),
        header matches AuthHeader::Text(v) ==> (if starts_with(v@, "Bearer "@) {
            r matches Ok(t) && t@ == v@.subrange("Bearer "@.len() as int, v@.len() as int)
        } else {
            r matches Err((code, m)) && code is Unauthenticated && m@ == "Bearer not found"@
        }),
{
    match header {
        AuthHeader::Missing => Err((GrpcCode::Unauthenticated, String::from_str("missing authorization header"))),
        AuthHeader::NotText(e) => Err((GrpcCode::Unauthenticated, e)),
        AuthHeader::Text(v) => {
            let s = v.as_str();
            if crate::text::has_literal_at(s, 0, "Bearer ") {
                let k = "Bearer ".unicode_len();
                let n = s.unicode_len();
                Ok(String::from_str(s.substring_char(k, n)))
            } else {
                Err((GrpcCode::Unauthenticated, String::from_str("Bearer not found")))
            }
        },
    }
}

/// The answer to a checked token of a call: the user id its claims name, or
/// an unauthenticated call with the error's message.
pub fn user_id_from_verified(verified: Result<Claims, JwtError>) -> (r: Result<u32, (GrpcCode, String)>)
    ensures
        match verified {
            Ok(c) => r == Ok::<u32, (GrpcCode, String)>(c.user_id),
            Err(e) => r matches Err((code, m)) && code is Unauthenticated && m@ == e.message_text(),
        },
{
    match verified {
        Ok(claims) => Ok(claims.get_user_id()),
        Err(e) => Err((GrpcCode::Unauthenticated, e.message())),
    }
}

/// The user id of a call on a protected method: its token must check
/// against the system clock, else the call is unauthenticated with the
/// decoding error's message.
pub fn authenticate_call(jwt: &JwtService, token: &str) -> (r: Result<u32, (GrpcCode, String)>)
    ensures
        r matches Ok(id) ==> (token_claims(token@, jwt.secret()) matches Some(c) && c.user_id == id),
        r matches Err((code, m)) ==> code is Unauthenticated
            && exists|e: JwtError| e is DecodeError && m@ == #[trigger] e.message_text(),
{
    match clock_seconds() {
        Ok(now) => authenticate_call_at(jwt, token, now),
        Err(e) => user_id_from_verified(Err(JwtError::DecodeError(e))),
    }
}

/// The user id of a call on a protected method at the time `now`: the
/// answer `verify_at` gives, mapped by `user_id_from_verified`.
pub fn authenticate_call_at(jwt: &JwtService, token: &str, now: u64) -> (r: Result<u32, (GrpcCode, String)>)
    ensures
        r is Ok <==> (token_claims(token@, jwt.secret()) matches Some(c) && c.exp + TOKEN_LEEWAY_SECS >= now),
        r matches Ok(id) ==> (token_claims(token@, jwt.secret()) matches Some(c) && c.user_id == id),
        (token_claims(token@, jwt.secret()) matches Some(c) && c.exp + TOKEN_LEEWAY_SECS < now) ==> (
            r matches Err((code, m)) && code is Unauthenticated && m@ == "failed to decode token. ExpiredSignature"@),
        r matches Err((code, m)) ==> code is Unauthenticated
            && exists|e: JwtError| e is DecodeError && m@ == #[trigger] e.message_text(),
{
    let verified = jwt.verify_at(token, now);
    proof {
        reveal_strlit("failed to decode token. ");
        reveal_strlit("ExpiredSignature");
        reveal_strlit("failed to decode token. ExpiredSignature");
    }
    user_id_from_verified(verified)
}

/// The limit and offset of a gRPC post list: a limit above 255 is an
/// invalid argument, the defaults stand for what is not given.
pub fn list_params(limit: Option<u32>, offset: Option<u32>) -> (r: Result<(u32, u32), (GrpcCode, String)>)
    ensures
        limit matches Some(l) && l > 255 ==> (r matches Err((code, m)) && code is InvalidArgument
            && m@ == "limit is <= 255"@),
        !(limit matches Some(l) && l > 255) ==> (r matches Ok((l, o))
            && l == match limit { Some(v) => v, None => DEFAULT_LIST_LIMIT as u32 }
            && o == match offset { Some(v) => v, None => DEFAULT_LIST_OFFSET }),
{
    let l = match limit {
        Some(v) => {
            if v > 255 {
                return Err((GrpcCode::InvalidArgument, String::from_str("limit is <= 255")));
            }
            v
        },
        None => DEFAULT_LIST_LIMIT as u32,
    };
    let o = match offset {
        Some(v) => v,
        None => DEFAULT_LIST_OFFSET,
    };
    Ok((l, o))
}

} // verus!
