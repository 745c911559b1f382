use blog_project::domain::{error_body, GrpcCode, Post, PostError, User, UserError, ValidationError};
use blog_project::data::RepositoryError;

fn validation() -> ValidationError {
    ValidationError { error: "data is invalid".into(), details: "email: invalid email".into() }
}

#[test]
fn user_error_statuses() {
    assert_eq!(UserError::Validation(validation()).status_code(), 400);
    assert_eq!(UserError::NotFound("x".into()).status_code(), 404);
    assert_eq!(UserError::InvalidCredentials("x".into()).status_code(), 401);
    assert_eq!(UserError::UserAlreadyExists("x".into()).status_code(), 409);
    assert_eq!(UserError::UnexpectedFailure("x".into()).status_code(), 500);
}

#[test]
fn post_error_statuses() {
    assert_eq!(PostError::Validation(validation()).status_code(), 400);
    assert_eq!(PostError::Forbidden("x".into()).status_code(), 403);
    assert_eq!(PostError::NotFound("x".into()).status_code(), 404);
    assert_eq!(PostError::UnexpectedFailure("x".into()).status_code(), 500);
}

#[test]
fn error_bodies() {
    assert_eq!(
        UserError::Validation(validation()).error_response_body(),
        "{\"error\":\"data is invalid\",\"details\":\"email: invalid email\"}"
    );
    assert_eq!(UserError::NotFound("who".into()).error_response_body(), "{\"error\":\"\"}");
    assert_eq!(PostError::Forbidden("no".into()).error_response_body(), "{\"error\":\"\"}");
    assert_eq!(error_body("a\nb", Some("\"q\"")), "{\"error\":\"a\\nb\",\"details\":\"\\\"q\\\"\"}");
}

#[test]
fn error_messages() {
    assert_eq!(
        UserError::Validation(validation()).message(),
        "validation error: data is invalid. details: email: invalid email"
    );
    assert_eq!(UserError::NotFound("bob".into()).message(), "user not found: bob");
    assert_eq!(UserError::UserAlreadyExists("bob".into()).message(), "user already exists: bob");
    assert_eq!(UserError::InvalidCredentials("bob".into()).message(), "invalid credentials: bob");
    assert_eq!(UserError::UnexpectedFailure("db".into()).message(), "unexpected failure: db");
    assert_eq!(PostError::NotFound("p".into()).message(), "Not found: p");
    assert_eq!(PostError::Forbidden("p".into()).message(), "Forbidden: p");
    assert_eq!(PostError::UnexpectedFailure("p".into()).message(), "Unexpected failure: p");
    assert_eq!(validation().display(), "{error: data is invalid, details: email: invalid email }");
    assert_eq!(RepositoryError::NotFound("n".into()).message(), "Not found. n");
    assert_eq!(RepositoryError::InternalError("i".into()).message(), "Internal error. i");
}

#[test]
fn grpc_statuses() {
    let (code, m) = UserError::Validation(validation()).grpc_status();
    assert_eq!(code, GrpcCode::InvalidArgument);
    assert_eq!(m, "{error: data is invalid, details: email: invalid email }");
    assert_eq!(UserError::UserAlreadyExists("e".into()).grpc_status().0, GrpcCode::AlreadyExists);
    assert_eq!(UserError::InvalidCredentials("e".into()).grpc_status().0, GrpcCode::PermissionDenied);
    assert_eq!(UserError::NotFound("e".into()).grpc_status(), (GrpcCode::NotFound, "e".to_string()));
    assert_eq!(UserError::UnexpectedFailure("e".into()).grpc_status().0, GrpcCode::Internal);
    assert_eq!(PostError::Forbidden("f".into()).grpc_status(), (GrpcCode::PermissionDenied, "f".to_string()));
    assert_eq!(PostError::NotFound("f".into()).grpc_status().0, GrpcCode::NotFound);
    assert_eq!(PostError::UnexpectedFailure("f".into()).grpc_status().0, GrpcCode::Internal);
    assert_eq!(PostError::Validation(validation()).grpc_status().0, GrpcCode::InvalidArgument);
}

#[test]
fn constructors() {
    let p = Post::new();
    assert_eq!(p.id, 0);
    assert_eq!(p.title, "");
    assert_eq!(p.created_at, 0);
    let u = User::new(3, "u".into(), "u@e.ru".into(), "hash".into(), 1_700_000_000_000_000);
    assert_eq!(u.id, 3);
    assert_eq!(u.email, "u@e.ru");
    assert_eq!(u.created_at, 1_700_000_000_000_000);
}
