use blog_project::dto::{CreatePostRequest, LoginRequest, PaginactionQuery, RegisterRequest, UpdatePostRequest};

fn login(u: &str, p: &str) -> LoginRequest {
    LoginRequest { username: u.to_string(), password: p.to_string() }
}

#[test]
fn login_checks() {
    assert!(login("u", "12345678").validate().is_ok());
    assert_eq!(login("", "12345678").validate(), Err("username: username min length is 1".to_string()));
    assert_eq!(
        login("", "short").validate(),
        Err("username: username min length is 1\npassword: password length must be between 8 and 256".to_string())
    );
    assert!(login("u", &"p".repeat(256)).validate().is_ok());
    assert!(login("u", &"p".repeat(257)).validate().is_err());
    assert!(login("u", &"é".repeat(8)).validate().is_ok());
}

#[test]
fn register_checks() {
    let ok = RegisterRequest {
        username: "User 1".into(),
        email: "User1@mail.ru".into(),
        password: "lksjfskjfsdf?".into(),
    };
    assert!(ok.validate().is_ok());
    let bad = RegisterRequest { username: "".into(), email: "not an email".into(), password: "1234567".into() };
    assert_eq!(
        bad.validate(),
        Err("username: username length must be between 1 and 256\nemail: invalid email\npassword: password length must be between 8 and 256".to_string())
    );
    let no_at = RegisterRequest { username: "a".into(), email: "mail.ru".into(), password: "12345678".into() };
    assert_eq!(no_at.validate(), Err("email: invalid email".to_string()));
    let long_name = RegisterRequest { username: "n".repeat(257), email: "a@b.c".into(), password: "12345678".into() };
    assert_eq!(long_name.validate(), Err("username: username length must be between 1 and 256".to_string()));
}

#[test]
fn post_checks() {
    let ok = CreatePostRequest { title: "Post 1".into(), content: "Post 1 content".into() };
    assert!(ok.validate().is_ok());
    let empty = CreatePostRequest { title: "".into(), content: "".into() };
    assert_eq!(
        empty.validate(),
        Err("title: length must be between 1 and 256\ncontent: length must be between 1 and 65636".to_string())
    );
    let long = CreatePostRequest { title: "t".into(), content: "c".repeat(65637) };
    assert_eq!(long.validate(), Err("content: length must be between 1 and 65636".to_string()));
    let longest = CreatePostRequest { title: "t".repeat(256), content: "c".repeat(65636) };
    assert!(longest.validate().is_ok());
}

#[test]
fn update_checks() {
    assert!(UpdatePostRequest { title: None, content: None }.validate().is_ok());
    assert!(UpdatePostRequest { title: Some("New title".into()), content: None }.validate().is_ok());
    assert_eq!(
        UpdatePostRequest { title: Some("".into()), content: Some("x".into()) }.validate(),
        Err("title: length must be between 1 and 256".to_string())
    );
    assert_eq!(
        UpdatePostRequest { title: None, content: Some("".into()) }.validate(),
        Err("content: length must be between 1 and 65636".to_string())
    );
}

#[test]
fn paging_always_valid() {
    assert!(PaginactionQuery { offset: Some(u32::MAX), limit: Some(255) }.validate().is_ok());
    assert!(PaginactionQuery { offset: None, limit: None }.validate().is_ok());
}
