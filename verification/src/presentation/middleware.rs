//! Authentication of HTTP requests by bearer token.
use vstd::prelude::*;
use vstd::string::*;
use crate::jwt::{Claims, JwtError, JwtService, TOKEN_LEEWAY_SECS, clock_seconds, token_claims};

verus! {

/// The user a request was authenticated as.
#[derive(Debug, Clone)]
pub struct AuthentificatedUser {
    pub user_id: u32,
    pub username: String,
}

impl AuthentificatedUser {
    pub fn get_id(&self) -> (r: u32)
        ensures
            r == self.user_id,
    {
        self.user_id
    }

    pub fn get_name(&self) -> (r: &str)
        ensures
            r@ == self.username@,
    {
        self.username.as_str()
    }

    /// The authenticated user a request carries; refused with 401 when the
    /// request was not authenticated.
    pub fn from_request(user: Option<&AuthentificatedUser>) -> (r: Result<AuthentificatedUser, (u16, String)>)
        ensures
            match user {
                Some(u) => r matches Ok(v) && v.user_id == u.user_id && v.username@ == u.username@,
                None => r matches Err((status, m)) && status == 401 && m@ == "missing authentificated user"@,
            },
    {
        match user {
            Some(u) => Ok(AuthentificatedUser { user_id: u.user_id, username: u.username.clone() }),
            None => Err((401, String::from_str("missing authentificated user"))),
        }
    }
}

/// The answer to a checked bearer token: the user its claims name, or a bad
/// request (400) with `bad token: ` and the error's message.
pub fn user_from_verified(verified: Result<Claims, JwtError>) -> (r: Result<AuthentificatedUser, (u16, String)>)
    ensures
        match verified {
            Ok(c) => r matches Ok(u) && u.user_id == c.user_id && u.username@ == c.username@,
            Err(e) => r matches Err((status, m)) && status == 400 && m@ == "bad token: "@ + e.message_text(),
        },
{
    match verified {
        Ok(claims) => {
            let user_id = claims.get_user_id();
            let username = String::from_str(claims.get_user_name());
            Ok(AuthentificatedUser { user_id, username })
        },
        Err(e) => Err((400, String::from_str("bad token: ").concat(e.message().as_str()))),
    }
}

/// The check of a bearer token on a protected route: without the token
/// service the answer is 500; with it, a token that does not check is a bad
/// request (400, `bad token: ` and the decoding error's message); otherwise
/// the request is authenticated as the user the token names. The token is
/// checked against the system clock.
pub fn jwt_validator(jwt: Option<&JwtService>, token: &str) -> (r: Result<AuthentificatedUser, (u16, String)>)
    ensures
        jwt is None ==> (r matches Err((status, m)) && status == 500 && m@ == "jwt service no found"@),
        jwt is Some ==> (r is Ok || (r matches Err((status, m)) && status == 400
            && exists|e: JwtError| e is DecodeError && m@ == "bad token: "@ + #[trigger] e.message_text())),
        r matches Ok(u) ==> (jwt matches Some(j) && token_claims(token@, j.secret()) matches Some(c)
            && c.user_id == u.user_id && c.username == u.username@),
{
    if jwt.is_none() {
        return Err((500, String::from_str("jwt service no found")));
    }
    match clock_seconds() {
        Ok(now) => jwt_validator_at(jwt, token, now),
        Err(e) => user_from_verified(Err(JwtError::DecodeError(e))),
    }
}

/// The check of a bearer token at the time `now`: without the token service
/// the answer is 500; otherwise the answer `verify_at` gives, mapped by
/// `user_from_verified`.
pub fn jwt_validator_at(jwt: Option<&JwtService>, token: &str, now: u64) -> (r: Result<AuthentificatedUser, (u16, String)>)
    ensures
        jwt is None ==> (r matches Err((status, m)) && status == 500 && m@ == "jwt service no found"@),
        jwt matches Some(j) ==> {
            &&& r is Ok <==> (token_claims(token@, j.secret()) matches Some(c) && c.exp + TOKEN_LEEWAY_SECS >= now)
            &&& r matches Ok(u) ==> (token_claims(token@, j.secret()) matches Some(c)
                && c.user_id == u.user_id && c.username == u.username@)
            &&& (token_claims(token@, j.secret()) matches Some(c) && c.exp + TOKEN_LEEWAY_SECS < now) ==> (
                r matches Err((status, m)) && status == 400
                && m@ == "bad token: failed to decode token. ExpiredSignature"@)
            &&& r matches Err((status, m)) ==> status == 400
                && exists|e: JwtError| e is DecodeError && m@ == "bad token: "@ + #[trigger] e.message_text()
        },
{
    let j = match jwt {
        Some(j) => j,
        None => {
            return Err((500, String::from_str("jwt service no found")));
        },
    };
    let verified = j.verify_at(token, now);
    proof {
        reveal_strlit("bad token: ");
        reveal_strlit("failed to decode token. ");
        reveal_strlit("ExpiredSignature");
        reveal_strlit("bad token: failed to decode token. ExpiredSignature");
    }
    user_from_verified(verified)
}

} // verus!
