//! The browser front end: its server, and the routes, bodies and
//! authorization it sends.
use vstd::prelude::*;
use vstd::string::*;
use crate::client::{login_body_text, post_body_text, register_body_text};
use crate::text::{dec, json_quoted, push_decimal, push_json_string};

verus! {

/// The browser application, talking to `remote_server`.
#[derive(Debug)]
pub struct BlogApp {
    remote_server: String,
    token: Option<String>,
}

/// A JSON text or `null`.
pub open spec fn json_opt(s: Option<Seq<char>>) -> Seq<char> {
    match s {
        Some(v) => json_quoted(v),
        None => "null"@,
    }
}

impl BlogApp {
    pub closed spec fn remote_server(&self) -> Seq<char> {
        self.remote_server@
    }

    pub closed spec fn has_token(&self) -> bool {
        self.token is Some
    }

    pub fn new(remote_server: String) -> (r: Self)
        ensures
            r.remote_server() == remote_server@,
            !r.has_token(),
    {
        BlogApp { remote_server, token: None }
    }

    fn route(&self, path: &str) -> (r: String)
        ensures
            r@ == self.remote_server() + path@,
    {
        self.remote_server.clone().concat(path)
    }

    pub fn register_url(&self) -> (r: String)
        ensures
            r@ == self.remote_server() + "/api/auth/register"@,
    {
        self.route("/api/auth/register")
    }

    pub fn login_url(&self) -> (r: String)
        ensures
            r@ == self.remote_server() + "/api/auth/login"@,
    {
        self.route("/api/auth/login")
    }

    pub fn posts_url(&self) -> (r: String)
        ensures
            r@ == self.remote_server() + "/api/posts"@,
    {
        self.route("/api/posts")
    }

    pub fn load_posts_url(&self, offset: u32, limit: u8) -> (r: String)
        ensures
            r@ == self.remote_server() + "/api/posts?offset="@ + dec(offset as nat) + "&limit="@ + dec(limit as nat),
    {
        let mut s = self.route("/api/posts?offset=");
        push_decimal(&mut s, offset as u64);
        s.append("&limit=");
        push_decimal(&mut s, limit as u64);
        s
    }

    pub fn post_url(&self, id: u32) -> (r: String)
        ensures
            r@ == self.remote_server() + "/api/posts/"@ + dec(id as nat),
    {
        let mut s = self.route("/api/posts/");
        push_decimal(&mut s, id as u64);
        s
    }

    /// The `authorization` header of a request made with the stored token.
    pub fn authorization_header(token: &str) -> (r: String)
        ensures
            r@ == "Bearer "@ + token@,
    {
        String::from_str("Bearer ").concat(token)
    }

    /// The `authorization` header from the token kept in the browser's
    /// storage; refused when no token is kept.
    pub fn authorization_from_storage(stored: Option<String>) -> (r: Result<String, String>)
        ensures
            match stored {
                Some(t) => r matches Ok(h) && h@ == "Bearer "@ + t@,
                None => r matches Err(m) && m@ == "Токен не найден"@,
            },
    {
        match stored {
            Some(t) => Ok(Self::authorization_header(t.as_str())),
            None => Err(String::from_str("Токен не найден")),
        }
    }

    /// A registration or a post creation succeeds with 200 or 201.
    pub fn created_ok(status: u16) -> (r: bool)
        ensures
            r == (status == 200 || status == 201),
    {
        status == 200 || status == 201
    }

    /// A login, a listing, an update or a deletion succeeds with 200.
    pub fn ok(status: u16) -> (r: bool)
        ensures
            r == (status == 200),
    {
        status == 200
    }

    /// The browser holds a token.
    pub fn is_authentificated(stored: Option<String>) -> (r: bool)
        ensures
            r == stored is Some,
    {
        stored.is_some()
    }

    /// The body of a registration (keys sorted, as `serde_json` writes them).
    pub fn register_body(username: &str, email: &str, password: &str) -> (r: String)
        ensures
            r@ == register_body_text(username@, email@, password@),
    {
        let mut s = String::from_str("{\"email\":");
        push_json_string(&mut s, email);
        s.append(",\"password\":");
        push_json_string(&mut s, password);
        s.append(",\"username\":");
        push_json_string(&mut s, username);
        s.append("}");
        s
    }

    /// The body of a login.
    pub fn login_body(username: &str, password: &str) -> (r: String)
        ensures
            r@ == login_body_text(username@, password@),
    {
        let mut s = String::from_str("{\"password\":");
        push_json_string(&mut s, password);
        s.append(",\"username\":");
        push_json_string(&mut s, username);
        s.append("}");
        s
    }

    /// The body of a new post.
    pub fn create_body(title: &str, content: &str) -> (r: String)
        ensures
            r@ == post_body_text(title@, content@),
    {
        let mut s = String::from_str("{\"content\":");
        push_json_string(&mut s, content);
        s.append(",\"title\":");
        push_json_string(&mut s, title);
        s.append("}");
        s
    }

    /// The body of a post update; an absent text is `null`.
    pub fn update_body(title: Option<&str>, content: Option<&str>) -> (r: String)
        ensures
            r@ == "{\"content\":"@ + json_opt(match content { Some(c) => Some(c@), None => None })
                + ",\"title\":"@ + json_opt(match title { Some(t) => Some(t@), None => None }) + "}"@,
    {
        let mut s = String::from_str("{\"content\":");
        match content {
            Some(c) => push_json_string(&mut s, c),
            None => s.append("null"),
        }
        s.append(",\"title\":");
        match title {
            Some(t) => push_json_string(&mut s, t),
            None => s.append("null"),
        }
        s.append("}");
        s
    }
}

} // verus!
