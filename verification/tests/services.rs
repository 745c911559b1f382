use blog_project::application::auth_service::{AuthService, LoginStep, RegisterStep};
use blog_project::application::blog_service::{BlogService, DeleteStep, UpdateStep};
use blog_project::data::post_repository::Field;
use blog_project::data::user_repository::Field as UserField;
use blog_project::data::RepositoryError;
use blog_project::domain::{Post, PostError, User, UserError};
use blog_project::dto::{CreatePostRequest, LoginRequest, RegisterRequest, UpdatePostRequest};
use blog_project::jwt::JwtService;
use blog_project::password::{check_password, hash_password, PasswordCheck};

fn register_request() -> RegisterRequest {
    RegisterRequest { username: "User 1".into(), email: "User1@email.ru".into(), password: "lskdfjkljskljsdf".into() }
}

fn stored_user(hash: String) -> User {
    User::new(11, "User 1".into(), "User1@email.ru".into(), hash, 0)
}

#[test]
fn registration_then_login() {
    let auth = AuthService::new();
    let jwt = JwtService::new("secret".into(), 300);
    let (pending, fields) = match auth.register_user(register_request()) {
        RegisterStep::Lookup { pending, fields } => (pending, fields),
        other => panic!("unexpected {:?}", other),
    };
    assert!(matches!(&fields[0], UserField::Email(e) if e == "User1@email.ru"));
    assert!(matches!(&fields[1], UserField::Username(u) if u == "User 1"));
    let request = match auth.register_on_lookup(pending, Err(RepositoryError::NotFound("no rows".into()))) {
        RegisterStep::Create { request } => request,
        other => panic!("unexpected {:?}", other),
    };
    assert_eq!(request.username, "User 1");
    assert_ne!(request.password, "lskdfjkljskljsdf");
    assert!(request.password.starts_with("$argon2id$"));
    let hash = request.password.clone();
    let resp = auth.register_on_created(Ok(stored_user(hash.clone())), &jwt).unwrap();
    assert_eq!(resp.user.id, 11);
    assert_eq!(resp.user.username, "User 1");
    let claims = jwt.verify_token(&resp.token).unwrap();
    assert_eq!(claims.user_id, 11);

    let login = LoginRequest { username: "User 1".into(), password: "lskdfjkljskljsdf".into() };
    let pending = match auth.login_user(login) {
        LoginStep::FindUser { pending, username } => {
            assert_eq!(username, "User 1");
            pending
        }
        other => panic!("unexpected {:?}", other),
    };
    let resp = auth.login_on_found(pending, Ok(stored_user(hash.clone())), &jwt).unwrap();
    assert_eq!(jwt.verify_token(&resp.token).unwrap().get_user_name(), "User 1");

    let wrong = LoginRequest { username: "User 1".into(), password: "wrong password".into() };
    let pending = match auth.login_user(wrong) {
        LoginStep::FindUser { pending, .. } => pending,
        other => panic!("unexpected {:?}", other),
    };
    match auth.login_on_found(pending, Ok(stored_user(hash)), &jwt) {
        Err(UserError::InvalidCredentials(m)) => assert_eq!(m, "failed to login user User 1"),
        other => panic!("unexpected {:?}", other),
    }
}

#[test]
fn registration_refusals() {
    let auth = AuthService::new();
    let bad = RegisterRequest { username: "".into(), email: "x".into(), password: "12345678".into() };
    match auth.register_user(bad) {
        RegisterStep::Finish(Err(UserError::Validation(v))) => {
            assert_eq!(v.error, "data is invalid");
            assert_eq!(v.details, "username: username length must be between 1 and 256\nemail: invalid email");
        }
        other => panic!("unexpected {:?}", other),
    }
    let pending = match auth.register_user(register_request()) {
        RegisterStep::Lookup { pending, .. } => pending,
        other => panic!("unexpected {:?}", other),
    };
    match auth.register_on_lookup(pending, Ok(stored_user("h".into()))) {
        RegisterStep::Finish(Err(UserError::UserAlreadyExists(m))) => {
            assert_eq!(m, "user(User 1) with email User1@email.ru is exist")
        }
        other => panic!("unexpected {:?}", other),
    }
    let pending = match auth.register_user(register_request()) {
        RegisterStep::Lookup { pending, .. } => pending,
        other => panic!("unexpected {:?}", other),
    };
    match auth.register_on_lookup(pending, Err(RepositoryError::InternalError("db down".into()))) {
        RegisterStep::Finish(Err(UserError::UnexpectedFailure(m))) => assert_eq!(m, "db down"),
        other => panic!("unexpected {:?}", other),
    }
    let jwt = JwtService::new("secret".into(), 300);
    match auth.register_on_created(Err("duplicate key".into()), &jwt) {
        Err(UserError::UnexpectedFailure(m)) => assert_eq!(m, "duplicate key"),
        other => panic!("unexpected {:?}", other),
    }
}

#[test]
fn login_refusals() {
    let auth = AuthService::new();
    let jwt = JwtService::new("secret".into(), 300);
    match auth.login_user(LoginRequest { username: "u".into(), password: "short".into() }) {
        LoginStep::Finish(Err(UserError::Validation(v))) => {
            assert_eq!(v.error, "data is not valid");
            assert_eq!(v.details, "password: password length must be between 8 and 256");
        }
        other => panic!("unexpected {:?}", other),
    }
    let pending = match auth.login_user(LoginRequest { username: "ghost".into(), password: "12345678".into() }) {
        LoginStep::FindUser { pending, .. } => pending,
        other => panic!("unexpected {:?}", other),
    };
    match auth.login_on_found(pending, Err("no rows".into()), &jwt) {
        Err(UserError::NotFound(m)) => assert_eq!(m, "user with name ghost not found: no rows"),
        other => panic!("unexpected {:?}", other),
    }
    let pending = match auth.login_user(LoginRequest { username: "User 1".into(), password: "12345678".into() }) {
        LoginStep::FindUser { pending, .. } => pending,
        other => panic!("unexpected {:?}", other),
    };
    assert!(matches!(
        auth.login_on_found(pending, Ok(stored_user("not a phc string".into())), &jwt),
        Err(UserError::UnexpectedFailure(_))
    ));
}

#[test]
fn password_hash_and_check() {
    let h = hash_password("correct horse").unwrap();
    assert!(matches!(check_password("correct horse", &h), PasswordCheck::Accepted));
    assert!(matches!(check_password("wrong horse", &h), PasswordCheck::Rejected));
    assert!(matches!(check_password("correct horse", "plain"), PasswordCheck::Malformed(_)));
    let h2 = hash_password("correct horse").unwrap();
    assert_ne!(h, h2);
}

fn post(author: i64) -> Post {
    Post {
        id: 3,
        title: "Post 1".into(),
        content: "Post 1 content".into(),
        author_id: author,
        created_at: 0,
        updated_at: 0,
    }
}

#[test]
fn posts_are_created_and_found() {
    let blog = BlogService::new();
    let data = blog
        .add_post(CreatePostRequest { title: "Post 1".into(), content: "Post 1 content".into() }, 4)
        .unwrap();
    assert_eq!(data.author, 4);
    match blog.add_post(CreatePostRequest { title: "".into(), content: "c".into() }, 4) {
        Err(PostError::Validation(v)) => {
            assert_eq!(v.error, "data is not valid");
            assert_eq!(v.details, "title: length must be between 1 and 256");
        }
        other => panic!("unexpected {:?}", other),
    }
    assert_eq!(blog.add_post_result(Ok(post(4))).unwrap().id, 3);
    assert!(matches!(blog.add_post_result(Err("x".into())), Err(PostError::UnexpectedFailure(m)) if m == "x"));
    assert_eq!(blog.find_post(3, Ok(post(4))).unwrap().author_id, 4);
    match blog.find_post(42, Err(RepositoryError::NotFound("no rows".into()))) {
        Err(PostError::NotFound(m)) => assert_eq!(m, "post with id 42 not found"),
        other => panic!("unexpected {:?}", other),
    }
    assert!(matches!(
        blog.find_post(42, Err(RepositoryError::InternalError("io".into()))),
        Err(PostError::UnexpectedFailure(m)) if m == "io"
    ));
}

#[test]
fn only_the_author_updates() {
    let blog = BlogService::new();
    let data = || UpdatePostRequest { title: Some("New title".into()), content: None };
    let pending = match blog.update_post(3, data(), 4) {
        UpdateStep::FindPost { pending, post_id } => {
            assert_eq!(post_id, 3);
            pending
        }
        other => panic!("unexpected {:?}", other),
    };
    match blog.update_post_on_found(pending, Ok(post(4))) {
        UpdateStep::Update { post_id, fields } => {
            assert_eq!(post_id, 3);
            assert_eq!(fields.len(), 1);
            assert!(matches!(&fields[0], Field::Title(t) if t == "New title"));
        }
        other => panic!("unexpected {:?}", other),
    }
    let pending = match blog.update_post(3, data(), 5) {
        UpdateStep::FindPost { pending, .. } => pending,
        other => panic!("unexpected {:?}", other),
    };
    match blog.update_post_on_found(pending, Ok(post(4))) {
        UpdateStep::Finish(Err(PostError::Forbidden(m))) => assert_eq!(m, "access denied to update post 3 for user 5"),
        other => panic!("unexpected {:?}", other),
    }
    match blog.update_post(3, UpdatePostRequest { title: Some("".into()), content: None }, 4) {
        UpdateStep::Finish(Err(PostError::Validation(v))) => assert_eq!(v.error, "post is not valid"),
        other => panic!("unexpected {:?}", other),
    }
    assert!(matches!(blog.update_post_result(Err("e".into())), Err(PostError::UnexpectedFailure(_))));
}

#[test]
fn only_the_author_deletes() {
    let blog = BlogService::new();
    let pending = match blog.delete_post(3, 4) {
        DeleteStep::FindPost { pending, post_id } => {
            assert_eq!(post_id, 3);
            pending
        }
        other => panic!("unexpected {:?}", other),
    };
    assert!(matches!(blog.delete_post_on_found(pending, Ok(post(4))), DeleteStep::Delete { post_id: 3 }));
    let pending = match blog.delete_post(3, 9) {
        DeleteStep::FindPost { pending, .. } => pending,
        other => panic!("unexpected {:?}", other),
    };
    match blog.delete_post_on_found(pending, Ok(post(4))) {
        DeleteStep::Finish(Err(PostError::Forbidden(m))) => assert_eq!(m, "access denied to update post 3 for user 9"),
        other => panic!("unexpected {:?}", other),
    }
    let pending = match blog.delete_post(8, 9) {
        DeleteStep::FindPost { pending, .. } => pending,
        other => panic!("unexpected {:?}", other),
    };
    match blog.delete_post_on_found(pending, Err(RepositoryError::NotFound("none".into()))) {
        DeleteStep::Finish(Err(PostError::NotFound(m))) => assert_eq!(m, "post with id 8 not found"),
        other => panic!("unexpected {:?}", other),
    }
    assert!(blog.delete_post_result(Ok(())).is_ok());
}

#[test]
fn listing() {
    let blog = BlogService::new();
    let q = blog.post_list(20, 5);
    assert_eq!((q.offset, q.limit), (20, 5));
    assert_eq!(blog.post_total_count(Ok(7)).unwrap(), 7);
    assert!(matches!(blog.post_list_result(Err("x".into())), Err(PostError::UnexpectedFailure(_))));
    assert_eq!(blog.post_list_result(Ok(vec![post(1)])).unwrap().len(), 1);
}
