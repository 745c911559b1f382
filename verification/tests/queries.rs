use blog_project::data::post_repository::{count_result, update_query, Field, Order};
use blog_project::data::user_repository::{delete_found, find_by_any_query, Field as UserField};
use blog_project::data::{builder_text, CreatePostData};
use blog_project::dto::{CreatePostRequest, UpdatePostRequest};

#[test]
fn update_query_sql() {
    let q = update_query(5, vec![Field::Title("New title".to_string())]).ok().unwrap();
    assert_eq!(builder_text(&q), "UPDATE posts SET title=$1, updated_at = NOW() WHERE id =$2 RETURNING *;");
    let q = update_query(7, vec![Field::Content("c".into()), Field::Title("t".into()), Field::AuthorId(3)])
        .ok()
        .unwrap();
    assert_eq!(
        builder_text(&q),
        "UPDATE posts SET content=$1,title=$2,author_id=$3, updated_at = NOW() WHERE id =$4 RETURNING *;"
    );
}

#[test]
fn update_query_refusals() {
    assert_eq!(update_query(1, vec![]).err(), Some("empty fields".to_string()));
    assert_eq!(
        update_query(1, vec![Field::Title("t".into()), Field::Id(4), Field::CreatedAt(0)]).err(),
        Some("field id is not supported".to_string())
    );
    assert_eq!(update_query(1, vec![Field::UpdatedAt(0)]).err(), Some("field updated_at is not supported".to_string()));
}

#[test]
fn find_by_any_sql() {
    let q = find_by_any_query(vec![UserField::Username("User 1".into()), UserField::Email("dskjfsf".into())])
        .ok()
        .unwrap();
    assert_eq!(builder_text(&q), "SELECT * FROM users WHERE username=$1 or email=$2");
    let q = find_by_any_query(vec![UserField::Email("e".into())]).ok().unwrap();
    assert_eq!(builder_text(&q), "SELECT * FROM users WHERE email=$1");
    assert_eq!(find_by_any_query(vec![]).err(), Some("empty fields".to_string()));
    assert_eq!(
        find_by_any_query(vec![UserField::Email("e".into()), UserField::Password("p".into())]).err(),
        Some("field is not supported".to_string())
    );
}

#[test]
fn field_names_and_order() {
    assert_eq!(Field::AuthorId(1).name(), "author_id");
    assert_eq!(Field::CreatedAt(0).name(), "created_at");
    assert_eq!(UserField::CreatedAt(0).name(), "created_at");
    assert_eq!(UserField::Password("p".into()).name(), "password");
    assert_eq!(Order::Asc.as_sql(), "ASC");
    assert_eq!(Order::Desc.as_sql(), "DESC");
}

#[test]
fn update_fields_from_request() {
    let fields = Field::list_from_update(UpdatePostRequest { title: Some("t".into()), content: Some("c".into()) });
    assert_eq!(fields.len(), 2);
    assert!(matches!(&fields[0], Field::Content(c) if c == "c"));
    assert!(matches!(&fields[1], Field::Title(t) if t == "t"));
    assert!(Field::list_from_update(UpdatePostRequest { title: None, content: None }).is_empty());
}

#[test]
fn new_post_data() {
    let d = CreatePostData::from_request(
        CreatePostRequest { title: "Post 1".into(), content: "Post 1 content".into() },
        9,
    );
    assert_eq!(d.title, "Post 1");
    assert_eq!(d.content, "Post 1 content");
    assert_eq!(d.author, 9);
}

#[test]
fn counts_and_deletions() {
    assert_eq!(count_result(Some(12)), Ok(12));
    assert_eq!(count_result(Some(4294967296 + 5)), Ok(5));
    assert_eq!(count_result(None), Err("no column found for name: couldn't get count from posts".to_string()));
    assert!(delete_found(1));
    assert!(!delete_found(0));
}
