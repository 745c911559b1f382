use blog_project::client::{BlogClient, HttpClient, Transport};
use blog_project::domain::GrpcCode;
use blog_project::jwt::{claims_payload, Claims, JwtError, JwtService};
use blog_project::password::{check_password, hash_password, PasswordCheck};
use blog_project::presentation::grpc_service::{authenticate_call_at, user_id_from_verified};
use blog_project::presentation::middleware::{jwt_validator, jwt_validator_at, user_from_verified};
use blog_project::web_app::BlogApp;

fn clock_now() -> u64 {
    std::time::SystemTime::now()
        .duration_since(std::time::UNIX_EPOCH)
        .unwrap()
        .as_secs()
}

#[test]
fn issue_at_sets_issue_and_expiry_times() {
    let jwt = JwtService::new("sdlkjsfjl3;dsfkj".into(), 300);
    let now = clock_now();
    let token = jwt.issue_at(1, "Tom", now - 5, now).unwrap();
    let claims = jwt.verify_token(&token).unwrap();
    assert_eq!(claims.get_user_id(), 1);
    assert_eq!(claims.get_user_name(), "Tom");
    assert_eq!(claims.iat, now - 5);
    assert_eq!(claims.exp, now + 300);
}

#[test]
fn issue_at_refuses_expiry_out_of_range() {
    let jwt = JwtService::new("secret".into(), 300);
    match jwt.issue_at(1, "Tom", 0, u64::MAX - 299) {
        Err(JwtError::ExpGenError(m)) => assert_eq!(m, "expiration is out of range"),
        other => panic!("unexpected {:?}", other),
    }
    assert!(jwt.issue_at(1, "Tom", 0, u64::MAX - 300).is_ok());
}

#[test]
fn token_issued_in_the_past_is_expired() {
    let jwt = JwtService::new("secret".into(), 10);
    let now = clock_now();
    let token = jwt.issue_at(2, "Ann", now - 100, now - 100).unwrap();
    assert!(matches!(jwt.verify_token(&token), Err(JwtError::DecodeError(_))));
}

#[test]
fn issued_payload_is_the_claims_text() {
    let c = Claims { user_id: 5, username: "Bob".into(), iat: 10, exp: 20 };
    assert_eq!(claims_payload(&c), "{\"user_id\":5,\"username\":\"Bob\",\"iat\":10,\"exp\":20}");
}

#[test]
fn validator_maps_decode_errors_to_bad_request() {
    let ok = user_from_verified(Ok(Claims { user_id: 9, username: "Eve".into(), iat: 0, exp: 1 })).unwrap();
    assert_eq!(ok.get_id(), 9);
    assert_eq!(ok.get_name(), "Eve");
    match user_from_verified(Err(JwtError::DecodeError("ExpiredSignature".into()))) {
        Err((status, m)) => {
            assert_eq!(status, 400);
            assert_eq!(m, "bad token: failed to decode token. ExpiredSignature");
        }
        Ok(_) => panic!("accepted"),
    }
    let jwt = JwtService::new("secret".into(), 300);
    match jwt_validator(Some(&jwt), "garbage") {
        Err((status, m)) => {
            assert_eq!(status, 400);
            assert!(m.starts_with("bad token: failed to decode token. "));
        }
        Ok(_) => panic!("accepted"),
    }
}

#[test]
fn grpc_call_maps_decode_errors_to_unauthenticated() {
    assert_eq!(
        user_id_from_verified(Ok(Claims { user_id: 4, username: "Tom".into(), iat: 0, exp: 1 })).unwrap(),
        4
    );
    match user_id_from_verified(Err(JwtError::DecodeError("InvalidSignature".into()))) {
        Err((code, m)) => {
            assert_eq!(code, GrpcCode::Unauthenticated);
            assert_eq!(m, "failed to decode token. InvalidSignature");
        }
        Ok(_) => panic!("accepted"),
    }
}

#[test]
fn stored_hash_is_an_argon2id_phc_string() {
    let h = hash_password("lksjfskjfsdf?").unwrap();
    assert!(h.starts_with("$argon2id$v=19$m=19456,t=2,p=1$"));
    assert_ne!(h, "lksjfskjfsdf?");
}

#[test]
fn client_holds_its_token() {
    let mut client = BlogClient::new(Transport::Http("http://127.0.0.1:3000".into()));
    assert_eq!(client.get_token(), None);
    client.set_token("abc".into());
    assert_eq!(client.get_token().map(|t| t.as_str()), Some("abc"));
    let grpc = BlogClient::new(Transport::Grpc("http://127.0.0.1:50051".into()));
    assert_eq!(grpc.get_token(), None);
    let http = HttpClient::new("http://h".into());
    assert_eq!(http.auth_api_url(), "http://h/api/auth/login");
}

#[test]
fn browser_request_bodies() {
    assert_eq!(
        BlogApp::register_body("Tom", "tom@mail.ru", "password1"),
        "{\"email\":\"tom@mail.ru\",\"password\":\"password1\",\"username\":\"Tom\"}"
    );
    assert_eq!(
        BlogApp::login_body("Tom", "pass\"1"),
        "{\"password\":\"pass\\\"1\",\"username\":\"Tom\"}"
    );
    assert_eq!(
        BlogApp::create_body("Title", "Body\n"),
        "{\"content\":\"Body\\n\",\"title\":\"Title\"}"
    );
}

#[test]
fn verify_at_applies_expiry_with_one_second_leeway() {
    let jwt = JwtService::new("sdlkjsfjl3;dsfkj".into(), 1);
    let token = jwt.issue_at(1, "Tom", 1000, 1000).unwrap();
    let c = jwt.verify_at(&token, 1000).unwrap();
    assert_eq!((c.get_user_id(), c.get_user_name(), c.iat, c.exp), (1, "Tom", 1000, 1001));
    assert!(jwt.verify_at(&token, 1002).is_ok());
    match jwt.verify_at(&token, 1003) {
        Err(JwtError::DecodeError(m)) => assert_eq!(m, "ExpiredSignature"),
        other => panic!("unexpected {:?}", other),
    }
    assert!(jwt.verify_at(&token, 0).is_ok());
    let other = JwtService::new("another".into(), 1);
    assert!(matches!(other.verify_at(&token, 1000), Err(JwtError::DecodeError(_))));
}

#[test]
fn malformed_stored_hash_reports_the_parser_message() {
    match check_password("password1", "not a phc string") {
        PasswordCheck::Malformed(m) => assert!(!m.is_empty()),
        _ => panic!("parsed"),
    }
}

#[test]
fn route_and_call_checks_at_a_given_time() {
    let jwt = JwtService::new("secret".into(), 10);
    let token = jwt.issue_at(7, "Ann", 100, 100).unwrap();
    let u = jwt_validator_at(Some(&jwt), &token, 105).unwrap();
    assert_eq!((u.get_id(), u.get_name()), (7, "Ann"));
    match jwt_validator_at(Some(&jwt), &token, 112) {
        Err((status, m)) => {
            assert_eq!(status, 400);
            assert_eq!(m, "bad token: failed to decode token. ExpiredSignature");
        }
        Ok(_) => panic!("accepted"),
    }
    match jwt_validator_at(None, &token, 105) {
        Err((status, m)) => {
            assert_eq!(status, 500);
            assert_eq!(m, "jwt service no found");
        }
        Ok(_) => panic!("accepted"),
    }
    assert_eq!(authenticate_call_at(&jwt, &token, 111).unwrap(), 7);
    match authenticate_call_at(&jwt, &token, 112) {
        Err((code, m)) => {
            assert_eq!(code, GrpcCode::Unauthenticated);
            assert_eq!(m, "failed to decode token. ExpiredSignature");
        }
        Ok(_) => panic!("accepted"),
    }
}
