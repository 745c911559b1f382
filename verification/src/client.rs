//! The client side: which transport to use, the routes and bodies of the
//! HTTP requests, and the reading of the statuses of their answers.
use vstd::prelude::*;
use vstd::string::*;
use crate::text::{dec, json_quoted, push_decimal, push_json_string};

verus! {

/// How a client reaches the server, with its address.
#[derive(Debug)]
pub enum Transport {
    Http(String),
    Grpc(String),
}

/// The bearer value of the `authorization` metadata of a gRPC call.
pub fn modify_token(token: String) -> (r: String)
    ensures
        r@ == "Bearer "@ + token@,
{
    String::from_str("Bearer ").concat(token.as_str())
}

/// How an answer whose status is not a success reads as an error.
#[derive(Debug)]
pub enum StatusFailure {
    NotFound,
    InvalidRequest(String),
    UnexpectedStatus { status: u16, text: String },
}

/// The body of an answer is read for its error unless the status is 404.
pub fn reads_error_body(status: u16) -> (r: bool)
    ensures
        r == (status != 404),
{
    status != 404
}

/// The error for an answer that is not a success, given its body: not found
/// for 404, an invalid request with the body for 400, otherwise the status
/// and the body.
pub fn map_not_ok_status(status: u16, text: String) -> (r: StatusFailure)
    ensures
        status == 404 ==> r is NotFound,
        status == 400 ==> (r matches StatusFailure::InvalidRequest(t) && t@ == text@),
        status != 404 && status != 400 ==> (r matches StatusFailure::UnexpectedStatus { status: s, text: t }
            && s == status && t@ == text@),
{
    if status == 404 {
        StatusFailure::NotFound
    } else if status == 400 {
        StatusFailure::InvalidRequest(text)
    } else {
        StatusFailure::UnexpectedStatus { status, text }
    }
}

/// The HTTP client's routes and request bodies, for the server at `api_url`.
#[derive(Debug)]
pub struct HttpClient {
    api_url: String,
}

/// The JSON body of a registration (keys in the order `serde_json` keeps
/// them: sorted).
pub open spec fn register_body_text(username: Seq<char>, email: Seq<char>, password: Seq<char>) -> Seq<char> {
    "{\"email\":"@ + json_quoted(email) + ",\"password\":"@ + json_quoted(password) + ",\"username\":"@
        + json_quoted(username) + "}"@
}

pub open spec fn login_body_text(username: Seq<char>, password: Seq<char>) -> Seq<char> {
    "{\"password\":"@ + json_quoted(password) + ",\"username\":"@ + json_quoted(username) + "}"@
}

pub open spec fn post_body_text(title: Seq<char>, content: Seq<char>) -> Seq<char> {
    "{\"content\":"@ + json_quoted(content) + ",\"title\":"@ + json_quoted(title) + "}"@
}

impl HttpClient {
    pub closed spec fn api_url(&self) -> Seq<char> {
        self.api_url@
    }

    pub fn new(api_url: String) -> (r: Self)
        ensures
            r.api_url() == api_url@,
    {
        HttpClient { api_url }
    }

    fn route(&self, path: &str) -> (r: String)
        ensures
            r@ == self.api_url() + path@,
    {
        self.api_url.clone().concat(path)
    }

    fn post_route(&self, id: u32) -> (r: String)
        ensures
            r@ == self.api_url() + "/api/posts/"@ + dec(id as nat),
    {
        let mut s = self.route("/api/posts/");
        push_decimal(&mut s, id as u64);
        s
    }

    pub fn auth_api_url(&self) -> (r: String)
        ensures
            r@ == self.api_url() + "/api/auth/login"@,
    {
        self.route("/api/auth/login")
    }

    pub fn reg_api_url(&self) -> (r: String)
        ensures
            r@ == self.api_url() + "/api/auth/register"@,
    {
        self.route("/api/auth/register")
    }

    pub fn create_api_url(&self) -> (r: String)
        ensures
            r@ == self.api_url() + "/api/posts"@,
    {
        self.route("/api/posts")
    }

    pub fn post_put_api_url(&self, id: u32) -> (r: String)
        ensures
            r@ == self.api_url() + "/api/posts/"@ + dec(id as nat),
    {
        self.post_route(id)
    }

    pub fn get_post_api_url(&self, id: u32) -> (r: String)
        ensures
            r@ == self.api_url() + "/api/posts/"@ + dec(id as nat),
    {
        self.post_route(id)
    }

    pub fn delete_post_api_url(&self, id: u32) -> (r: String)
        ensures
            r@ == self.api_url() + "/api/posts/"@ + dec(id as nat),
    {
        self.post_route(id)
    }

    pub fn list_posts_url(&self, offset: u32, limit: u8) -> (r: String)
        ensures
            r@ == self.api_url() + "/api/posts?offset="@ + dec(offset as nat) + "&limit="@ + dec(limit as nat),
    {
        let mut s = self.route("/api/posts?offset=");
        push_decimal(&mut s, offset as u64);
        s.append("&limit=");
        push_decimal(&mut s, limit as u64);
        s
    }

    pub fn register_body(&self, username: &str, email: &str, password: &str) -> (r: String)
        ensures
            r@ == register_body_text(username@, email@, password@),
    {
        let mut s = String::from_str("{\"email\":");
        push_json_string(&mut s, email);
        s.append(",\"password\":");
        push_json_string(&mut s, password);
        s.append(",\"username\":");
        push_json_string(&mut s, username);
        s.append("}");
        s
    }

    pub fn login_body(&self, username: &str, password: &str) -> (r: String)
        ensures
            r@ == login_body_text(username@, password@),
    {
        let mut s = String::from_str("{\"password\":");
        push_json_string(&mut s, password);
        s.append(",\"username\":");
        push_json_string(&mut s, username);
        s.append("}");
        s
    }

    pub fn post_body(&self, title: &str, content: &str) -> (r: String)
        ensures
            r@ == post_body_text(title@, content@),
    {
        let mut s = String::from_str("{\"content\":");
        push_json_string(&mut s, content);
        s.append(",\"title\":");
        push_json_string(&mut s, title);
        s.append("}");
        s
    }

    /// A registration or a post creation succeeds with 200 or 201.
    pub fn created_ok(status: u16) -> (r: bool)
        ensures
            r == (status == 200 || status == 201),
    {
        status == 200 || status == 201
    }

    /// Every other request succeeds with 200 only.
    pub fn ok(status: u16) -> (r: bool)
        ensures
            r == (status == 200),
    {
        status == 200
    }
}

/// The client a user holds: its transport, the HTTP client when the
/// transport is HTTP, and the token of the last login or registration. The
/// gRPC channel of a gRPC transport is opened by the caller.
#[derive(Debug)]
pub struct BlogClient {
    transport: Transport,
    http_client: Option<HttpClient>,
    token: Option<String>,
}

/// The address of a transport.
pub open spec fn transport_address(t: Transport) -> Seq<char> {
    match t {
        Transport::Http(u) => u@,
        Transport::Grpc(u) => u@,
    }
}

impl BlogClient {
    pub closed spec fn is_http(&self) -> bool {
        self.transport is Http
    }

    pub closed spec fn address(&self) -> Seq<char> {
        transport_address(self.transport)
    }

    /// The API address of the HTTP client, when there is one.
    pub closed spec fn http_api_url(&self) -> Option<Seq<char>> {
        match self.http_client {
            Some(c) => Some(c.api_url()),
            None => None,
        }
    }

    /// The token held, if any.
    pub closed spec fn token_text(&self) -> Option<Seq<char>> {
        match self.token {
            Some(t) => Some(t@),
            None => None,
        }
    }

    /// A client for the transport, holding no token; an HTTP transport gets
    /// an HTTP client for its address.
    pub fn new(transport: Transport) -> (r: Self)
        ensures
            r.is_http() == (transport is Http),
            r.address() == transport_address(transport),
            r.http_api_url() == (if transport is Http { Some(transport_address(transport)) } else { None }),
            r.token_text() is None,
    {
        let http_client = match &transport {
            Transport::Http(url) => Some(HttpClient::new(url.clone())),
            Transport::Grpc(_) => None,
        };
        BlogClient { transport, http_client, token: None }
    }

    /// Holds the token for the requests that follow.
    pub fn set_token(&mut self, token: String)
        ensures
            final(self).token_text() == Some(token@),
            final(self).is_http() == old(self).is_http(),
            final(self).address() == old(self).address(),
            final(self).http_api_url() == old(self).http_api_url(),
    {
        self.token = Some(token);
    }

    /// The token held, if any.
    pub fn get_token(&self) -> (r: Option<&String>)
        ensures
            match self.token_text() {
                Some(t) => r matches Some(v) && v@ == t,
                None => r is None,
            },
    {
        match &self.token {
            Some(t) => Some(t),
            None => None,
        }
    }
}

} // verus!
