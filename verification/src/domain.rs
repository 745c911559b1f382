//! Users, posts, and the errors of the authentication and blog services,
//! with the HTTP and gRPC answers each error is given.
use vstd::prelude::*;
use vstd::string::*;
use crate::text::{json_quoted, push_json_string};

verus! {

/// A post as stored. Times are microseconds since the Unix epoch (UTC).
#[derive(Debug, Clone)]
pub struct Post {
    pub id: i64,
    pub title: String,
    pub content: String,
    pub author_id: i64,
    pub created_at: i64,
    pub updated_at: i64,
}

impl Post {
    /// The empty post: zero ids, empty texts, both times at the epoch.
    pub fn new() -> (p: Post)
        ensures
            p.id == 0 && p.author_id == 0 && p.title@.len() == 0 && p.content@.len() == 0,
            p.created_at == 0 && p.updated_at == 0,
    {
        Post {
            id: 0,
            title: String::new(),
            content: String::new(),
            author_id: 0,
            created_at: 0,
            updated_at: 0,
        }
    }
}

/// A registered user as stored; `password_hash` is an argon2 PHC string.
/// `created_at` is in microseconds since the Unix epoch (UTC).
#[derive(Debug, Clone)]
pub struct User {
    pub id: i64,
    pub username: String,
    pub email: String,
    pub password_hash: String,
    pub created_at: i64,
}

impl User {
    pub fn new(id: i64, username: String, email: String, password_hash: String, created_at: i64) -> (u: User)
        ensures
            u.id == id && u.username@ == username@ && u.email@ == email@,
            u.password_hash@ == password_hash@ && u.created_at == created_at,
    {
        User { id, username, email, password_hash, created_at }
    }
}

/// A post to create, as the domain names it.
#[derive(Debug)]
pub struct CreatePostRequest {
    pub title: String,
    pub content: String,
}

/// New texts for a post, as the domain names it.
#[derive(Debug)]
pub struct UpdatePostRequest {
    pub title: String,
    pub content: String,
}

/// A rejected request: what was wrong, and the details per field.
#[derive(Debug)]
pub struct ValidationError {
    pub error: String,
    pub details: String,
}

impl ValidationError {
    pub open spec fn display_text(&self) -> Seq<char> {
        "{error: "@ + self.error@ + ", details: "@ + self.details@ + " }"@
    }

    /// `{error: …, details: … }`.
    pub fn display(&self) -> (r: String)
        ensures
            r@ == self.display_text(),
    {
        let mut s = String::from_str("{error: ");
        s.append(self.error.as_str());
        s.append(", details: ");
        s.append(self.details.as_str());
        s.append(" }");
        s
    }
}

/// The status codes of gRPC that the services answer with.
#[derive(Debug, Clone, Copy, PartialEq, Eq)]
pub enum GrpcCode {
    InvalidArgument,
    NotFound,
    AlreadyExists,
    PermissionDenied,
    Unauthenticated,
    Internal,
}

/// The JSON body of an error answer: the error text, and the details when
/// there are any.
pub open spec fn error_body_text(error: Seq<char>, details: Option<Seq<char>>) -> Seq<char> {
    match details {
        Some(d) => "{\"error\":"@ + json_quoted(error) + ",\"details\":"@ + json_quoted(d) + "}"@,
        None => "{\"error\":"@ + json_quoted(error) + "}"@,
    }
}

pub fn error_body(error: &str, details: Option<&str>) -> (r: String)
    ensures
        r@ == error_body_text(error@, match details { Some(d) => Some(d@), None => None }),
{
    let mut s = String::from_str("{\"error\":");
    push_json_string(&mut s, error);
    match details {
        Some(d) => {
            s.append(",\"details\":");
            push_json_string(&mut s, d);
        },
        None => {},
    }
    s.append("}");
    s
}

/// Errors of registration and login.
#[derive(Debug)]
pub enum UserError {
    Validation(ValidationError),
    NotFound(String),
    UserAlreadyExists(String),
    InvalidCredentials(String),
    UnexpectedFailure(String),
}

impl UserError {
    pub open spec fn message_text(&self) -> Seq<char> {
        match self {
            UserError::Validation(v) => "validation error: "@ + v.error@ + ". details: "@ + v.details@,
            UserError::NotFound(m) => "user not found: "@ + m@,
            UserError::UserAlreadyExists(m) => "user already exists: "@ + m@,
            UserError::InvalidCredentials(m) => "invalid credentials: "@ + m@,
            UserError::UnexpectedFailure(m) => "unexpected failure: "@ + m@,
        }
    }

    /// The error's message.
    pub fn message(&self) -> (r: String)
        ensures
            r@ == self.message_text(),
    {
        match self {
            UserError::Validation(v) => {
                let mut s = String::from_str("validation error: ");
                s.append(v.error.as_str());
                s.append(". details: ");
                s.append(v.details.as_str());
                s
            },
            UserError::NotFound(m) => String::from_str("user not found: ").concat(m.as_str()),
            UserError::UserAlreadyExists(m) => String::from_str("user already exists: ").concat(m.as_str()),
            UserError::InvalidCredentials(m) => String::from_str("invalid credentials: ").concat(m.as_str()),
            UserError::UnexpectedFailure(m) => String::from_str("unexpected failure: ").concat(m.as_str()),
        }
    }

    pub open spec fn status_code_spec(&self) -> u16 {
        match self {
            UserError::Validation(_) => 400,
            UserError::NotFound(_) => 404,
            UserError::InvalidCredentials(_) => 401,
            UserError::UserAlreadyExists(_) => 409,
            UserError::UnexpectedFailure(_) => 500,
        }
    }

    /// The HTTP status of the error's answer.
    pub fn status_code(&self) -> (r: u16)
        ensures
            r == self.status_code_spec(),
    {
        match self {
            UserError::Validation(_) => 400,
            UserError::NotFound(_) => 404,
            UserError::InvalidCredentials(_) => 401,
            UserError::UserAlreadyExists(_) => 409,
            UserError::UnexpectedFailure(_) => 500,
        }
    }

    /// The JSON body of the error's answer: a validation error shows its
    /// error and details, every other error an empty error text.
    pub fn error_response_body(&self) -> (r: String)
        ensures
            r@ == match self {
                UserError::Validation(v) => error_body_text(v.error@, Some(v.details@)),
                _ => error_body_text(Seq::empty(), None),
            },
    {
        match self {
            UserError::Validation(v) => error_body(v.error.as_str(), Some(v.details.as_str())),
            _ => {
                proof {
                    reveal_strlit("");
                }
                error_body("", None)
            },
        }
    }

    /// The gRPC status the error becomes, and its message.
    pub fn grpc_status(&self) -> (r: (GrpcCode, String))
        ensures
            match self {
                UserError::Validation(v) => r.0 is InvalidArgument && r.1@ == v.display_text(),
                UserError::NotFound(m) => r.0 is NotFound && r.1@ == m@,
                UserError::UserAlreadyExists(m) => r.0 is AlreadyExists && r.1@ == m@,
                UserError::InvalidCredentials(m) => r.0 is PermissionDenied && r.1@ == m@,
                UserError::UnexpectedFailure(m) => r.0 is Internal && r.1@ == m@,
            },
    {
        match self {
            UserError::Validation(v) => (GrpcCode::InvalidArgument, v.display()),
            UserError::NotFound(m) => (GrpcCode::NotFound, m.clone()),
            UserError::UserAlreadyExists(m) => (GrpcCode::AlreadyExists, m.clone()),
            UserError::InvalidCredentials(m) => (GrpcCode::PermissionDenied, m.clone()),
            UserError::UnexpectedFailure(m) => (GrpcCode::Internal, m.clone()),
        }
    }
}

/// Errors of the blog service.
#[derive(Debug)]
pub enum PostError {
    Validation(ValidationError),
    NotFound(String),
    Forbidden(String),
    UnexpectedFailure(String),
}

impl PostError {
    pub open spec fn message_text(&self) -> Seq<char> {
        match self {
            PostError::Validation(v) => "validation error: "@ + v.error@ + ". details: "@ + v.details@,
            PostError::NotFound(m) => "Not found: "@ + m@,
            PostError::Forbidden(m) => "Forbidden: "@ + m@,
            PostError::UnexpectedFailure(m) => "Unexpected failure: "@ + m@,
        }
    }

    /// The error's message.
    pub fn message(&self) -> (r: String)
        ensures
            r@ == self.message_text(),
    {
        match self {
            PostError::Validation(v) => {
                let mut s = String::from_str("validation error: ");
                s.append(v.error.as_str());
                s.append(". details: ");
                s.append(v.details.as_str());
                s
            },
            PostError::NotFound(m) => String::from_str("Not found: ").concat(m.as_str()),
            PostError::Forbidden(m) => String::from_str("Forbidden: ").concat(m.as_str()),
            PostError::UnexpectedFailure(m) => String::from_str("Unexpected failure: ").concat(m.as_str()),
        }
    }

    pub open spec fn status_code_spec(&self) -> u16 {
        match self {
            PostError::Validation(_) => 400,
            PostError::Forbidden(_) => 403,
            PostError::NotFound(_) => 404,
            PostError::UnexpectedFailure(_) => 500,
        }
    }

    /// The HTTP status of the error's answer.
    pub fn status_code(&self) -> (r: u16)
        ensures
            r == self.status_code_spec(),
    {
        match self {
            PostError::Validation(_) => 400,
            PostError::Forbidden(_) => 403,
            PostError::NotFound(_) => 404,
            PostError::UnexpectedFailure(_) => 500,
        }
    }

    /// The JSON body of the error's answer: a validation error shows its
    /// error and details, every other error an empty error text.
    pub fn error_response_body(&self) -> (r: String)
        ensures
            r@ == match self {
                PostError::Validation(v) => error_body_text(v.error@, Some(v.details@)),
                _ => error_body_text(Seq::empty(), None),
            },
    {
        match self {
            PostError::Validation(v) => error_body(v.error.as_str(), Some(v.details.as_str())),
            _ => {
                proof {
                    reveal_strlit("");
                }
                error_body("", None)
            },
        }
    }

    /// The gRPC status the error becomes, and its message.
    pub fn grpc_status(&self) -> (r: (GrpcCode, String))
        ensures
            match self {
                PostError::Validation(v) => r.0 is InvalidArgument && r.1@ == v.display_text(),
                PostError::NotFound(m) => r.0 is NotFound && r.1@ == m@,
                PostError::Forbidden(m) => r.0 is PermissionDenied && r.1@ == m@,
                PostError::UnexpectedFailure(m) => r.0 is Internal && r.1@ == m@,
            },
    {
        match self {
            PostError::Validation(v) => (GrpcCode::InvalidArgument, v.display()),
            PostError::NotFound(m) => (GrpcCode::NotFound, m.clone()),
            PostError::Forbidden(m) => (GrpcCode::PermissionDenied, m.clone()),
            PostError::UnexpectedFailure(m) => (GrpcCode::Internal, m.clone()),
        }
    }
}

} // verus!
