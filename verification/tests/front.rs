use std::sync::Arc;
use blog_project::application::auth_service::AuthService;
use blog_project::application::blog_service::BlogService;
use blog_project::client::{map_not_ok_status, modify_token, reads_error_body, HttpClient, StatusFailure, Transport};
use blog_project::domain::GrpcCode;
use blog_project::jwt::JwtService;
use blog_project::presentation::grpc_service::{authenticate_call, get_auth_token, list_params, AuthHeader, BlogGrpcService};
use blog_project::presentation::middleware::{jwt_validator, AuthentificatedUser};
use blog_project::presentation::page_params;

#[test]
fn bearer_tokens_of_calls() {
    assert_eq!(get_auth_token(AuthHeader::Text("Bearer abc.def".into())), Ok("abc.def".to_string()));
    assert_eq!(get_auth_token(AuthHeader::Text("Bearer ".into())), Ok("".to_string()));
    assert_eq!(
        get_auth_token(AuthHeader::Missing),
        Err((GrpcCode::Unauthenticated, "missing authorization header".to_string()))
    );
    assert_eq!(
        get_auth_token(AuthHeader::Text("Basic abc".into())),
        Err((GrpcCode::Unauthenticated, "Bearer not found".to_string()))
    );
    assert_eq!(
        get_auth_token(AuthHeader::NotText("bad".into())),
        Err((GrpcCode::Unauthenticated, "bad".to_string()))
    );
}

#[test]
fn list_paging() {
    assert_eq!(list_params(None, None), Ok((10, 0)));
    assert_eq!(list_params(Some(255), Some(40)), Ok((255, 40)));
    assert_eq!(list_params(Some(256), Some(40)), Err((GrpcCode::InvalidArgument, "limit is <= 255".to_string())));
    assert_eq!(page_params(None, None), (0, 10));
    assert_eq!(page_params(Some(3), Some(0)), (3, 0));
}

#[test]
fn authenticated_requests() {
    let jwt = JwtService::new("secret".into(), 300);
    let token = jwt.generate_token(5, "Tom").unwrap();
    let user = jwt_validator(Some(&jwt), &token).unwrap();
    assert_eq!(user.get_id(), 5);
    assert_eq!(user.get_name(), "Tom");
    assert_eq!(jwt_validator(None, &token).err().unwrap(), (500, "jwt service no found".to_string()));
    let (status, m) = jwt_validator(Some(&jwt), "garbage").err().unwrap();
    assert_eq!(status, 400);
    assert!(m.starts_with("bad token: failed to decode token. "));
    assert_eq!(authenticate_call(&jwt, &token), Ok(5));
    assert_eq!(authenticate_call(&jwt, "garbage").err().unwrap().0, GrpcCode::Unauthenticated);
    let again = AuthentificatedUser::from_request(Some(&user)).unwrap();
    assert_eq!(again.user_id, 5);
    assert_eq!(
        AuthentificatedUser::from_request(None).err().unwrap(),
        (401, "missing authentificated user".to_string())
    );
}

#[test]
fn grpc_service_parts() {
    let jwt = Arc::new(JwtService::new("s".into(), 1));
    let service = BlogGrpcService::new(Arc::new(AuthService::new()), Arc::new(BlogService::new()), Arc::clone(&jwt));
    assert!(Arc::ptr_eq(&service.jwt_service, &jwt));
}

#[test]
fn client_routes_and_bodies() {
    let c = HttpClient::new("http://127.0.0.1:3000".into());
    assert_eq!(c.auth_api_url(), "http://127.0.0.1:3000/api/auth/login");
    assert_eq!(c.reg_api_url(), "http://127.0.0.1:3000/api/auth/register");
    assert_eq!(c.create_api_url(), "http://127.0.0.1:3000/api/posts");
    assert_eq!(c.post_put_api_url(12), "http://127.0.0.1:3000/api/posts/12");
    assert_eq!(c.get_post_api_url(0), "http://127.0.0.1:3000/api/posts/0");
    assert_eq!(c.delete_post_api_url(99), "http://127.0.0.1:3000/api/posts/99");
    assert_eq!(c.list_posts_url(0, 10), "http://127.0.0.1:3000/api/posts?offset=0&limit=10");
    assert_eq!(
        c.register_body("username", "email@mail.ru", "password"),
        "{\"email\":\"email@mail.ru\",\"password\":\"password\",\"username\":\"username\"}"
    );
    assert_eq!(c.login_body("username", "pass1"), "{\"password\":\"pass1\",\"username\":\"username\"}");
    assert_eq!(c.post_body("title", "content"), "{\"content\":\"content\",\"title\":\"title\"}");
    assert!(HttpClient::created_ok(201));
    assert!(!HttpClient::ok(201));
}

#[test]
fn client_status_errors() {
    assert!(matches!(map_not_ok_status(404, String::new()), StatusFailure::NotFound));
    assert!(!reads_error_body(404));
    assert!(reads_error_body(400));
    assert!(matches!(map_not_ok_status(400, "bad".into()), StatusFailure::InvalidRequest(t) if t == "bad"));
    assert!(matches!(
        map_not_ok_status(500, "boom".into()),
        StatusFailure::UnexpectedStatus { status: 500, text } if text == "boom"
    ));
    assert_eq!(modify_token("abc".into()), "Bearer abc");
    assert!(matches!(Transport::Grpc("http://localhost:50051".into()), Transport::Grpc(_)));
}
