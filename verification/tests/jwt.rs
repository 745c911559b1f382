use blog_project::jwt::{claims_from_payload, claims_payload, parse_claims, Claims, JwtError, JwtService};

#[test]
fn test_basic() {
    let jwt_service = JwtService::new("sdlkjsfjl3;dsfkj".into(), 300);
    let _token = jwt_service.generate_token(1, "Tom").unwrap();
}

#[test]
fn test_should_be_valid() {
    let jwt_service = JwtService::new("sdlkjsfjl3;dsfkj".into(), 300);
    let token = jwt_service.generate_token(1, "Tom").unwrap();
    assert!(jwt_service.verify_token(&token).is_ok());
}

#[test]
fn verified_token_carries_issued_user() {
    let jwt_service = JwtService::new("secret".into(), 300);
    let token = jwt_service.generate_token(42, "Ann \"the\" \\ writer\n").unwrap();
    let claims = jwt_service.verify_token(&token).unwrap();
    assert_eq!(claims.get_user_id(), 42);
    assert_eq!(claims.get_user_name(), "Ann \"the\" \\ writer\n");
    assert!(claims.exp >= claims.iat + 300 && claims.exp <= claims.iat + 301);
}

#[test]
fn test_should_be_expired() {
    let jwt_service = JwtService::new("sdlkjsfjl3;dsfkj".into(), 1);
    let token = jwt_service.generate_token(1, "Tom").unwrap();
    let start = std::time::Instant::now();
    while start.elapsed() < std::time::Duration::from_secs(3) {
        std::hint::spin_loop();
    }
    assert!(!jwt_service.verify_token(&token).is_ok());
}

#[test]
fn token_from_other_secret_is_refused() {
    let issuer = JwtService::new("one secret".into(), 300);
    let other_service = JwtService::new("another secret".into(), 300);
    let token = issuer.generate_token(7, "Bob").unwrap();
    match other_service.verify_token(&token) {
        Err(JwtError::DecodeError(_)) => {}
        other => panic!("unexpected {:?}", other),
    }
}

#[test]
fn garbage_token_is_refused() {
    let jwt_service = JwtService::new("secret".into(), 300);
    let r = jwt_service.verify_token("not.a.token");
    assert!(matches!(r, Err(JwtError::DecodeError(_))));
}

#[test]
fn claims_text_is_the_serde_layout() {
    let c = Claims { user_id: 1, username: "Tom".to_string(), iat: 10, exp: 310 };
    assert_eq!(claims_payload(&c), "{\"user_id\":1,\"username\":\"Tom\",\"iat\":10,\"exp\":310}");
    let c = Claims { user_id: 4294967295, username: "a\u{1}b\té".to_string(), iat: 0, exp: u64::MAX };
    assert_eq!(
        claims_payload(&c),
        "{\"user_id\":4294967295,\"username\":\"a\\u0001b\\té\",\"iat\":0,\"exp\":18446744073709551615}"
    );
}

#[test]
fn claims_read_back() {
    let c = Claims { user_id: 9, username: "x\"y\\z\r\u{1f}".to_string(), iat: 123, exp: 456 };
    let text = claims_payload(&c);
    let back = parse_claims(&text).unwrap();
    assert_eq!(back.user_id, 9);
    assert_eq!(back.username, "x\"y\\z\r\u{1f}");
    assert_eq!(back.iat, 123);
    assert_eq!(back.exp, 456);
}

#[test]
fn non_claims_texts_are_refused() {
    assert!(parse_claims("").is_none());
    assert!(parse_claims("{\"user_id\":01,\"username\":\"a\",\"iat\":1,\"exp\":2}").is_none());
    assert!(parse_claims("{\"user_id\":4294967296,\"username\":\"a\",\"iat\":1,\"exp\":2}").is_none());
    assert!(parse_claims("{\"user_id\":1,\"username\":\"a\",\"iat\":1,\"exp\":2} ").is_none());
    assert!(parse_claims("{\"user_id\":1,\"username\":\"a\\/\",\"iat\":1,\"exp\":2}").is_none());
    assert!(parse_claims("{\"username\":\"a\",\"user_id\":1,\"iat\":1,\"exp\":2}").is_none());
    match claims_from_payload("{}") {
        Err(e) => assert_eq!(
            e.message(),
            "failed to decode token. the token's claims are not of the form this service issues"
        ),
        Ok(_) => panic!("accepted"),
    }
}

#[test]
fn jwt_error_messages() {
    assert_eq!(JwtError::ExpGenError("x".into()).message(), "failed to generate expiration. x");
    assert_eq!(JwtError::EncodeError("y".into()).message(), "failed to encode token. y");
    assert_eq!(JwtError::DecodeError("z".into()).message(), "failed to decode token. z");
}
