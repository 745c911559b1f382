use blog_project::web_app::BlogApp;

#[test]
fn it_works() {}

#[test]
fn app_routes() {
    let app = BlogApp::new("http://localhost:3000".to_string());
    assert_eq!(app.register_url(), "http://localhost:3000/api/auth/register");
    assert_eq!(app.login_url(), "http://localhost:3000/api/auth/login");
    assert_eq!(app.posts_url(), "http://localhost:3000/api/posts");
    assert_eq!(app.load_posts_url(20, 5), "http://localhost:3000/api/posts?offset=20&limit=5");
    assert_eq!(app.post_url(17), "http://localhost:3000/api/posts/17");
    assert_eq!(BlogApp::authorization_header("abc"), "Bearer abc");
}

#[test]
fn app_update_body() {
    assert_eq!(BlogApp::update_body(Some("t"), None), "{\"content\":null,\"title\":\"t\"}");
    assert_eq!(BlogApp::update_body(None, Some("c\"")), "{\"content\":\"c\\\"\",\"title\":null}");
}
