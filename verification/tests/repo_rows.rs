use itx::error::RepoError;
use itx::repo::post::{CreateParams, UpdateParams};
use itx::repo::rows::{
    assemble_posts, created_post, delete_outcome, effective_limit, effective_offset, found_post,
    found_user, needs_tag_query, parse_author, parse_post_rows, parse_user_rows, plan_update,
    post_id_of_insert, tags_for, uuid_text, PostRow, TagRow, TextPostRow, TextUserRow,
};
use itx::repo::user::User;

const ID_TEXT: &str = "936da01f-9abd-4d9d-80c7-02af85c822a8";
const ID: u128 = 0x936da01f_9abd_4d9d_80c7_02af85c822a8;

fn row(id: i64, title: &str) -> PostRow {
    PostRow { id, author_id: ID, title: title.to_string(), body: format!("body {id}"), created_at: 1_000 + id as i128 }
}

fn tag(post_id: i64, name: &str) -> TagRow {
    TagRow { post_id, name: name.to_string() }
}

#[test]
fn limit_zero_means_fifty() {
    assert_eq!(effective_limit(0), 50);
    assert_eq!(effective_limit(7), 7);
    assert_eq!(effective_limit(u32::MAX), u32::MAX as i64);
    assert_eq!(effective_offset(3), 3);
}

#[test]
fn tag_query_only_for_some_posts() {
    assert!(!needs_tag_query(&vec![]));
    assert!(needs_tag_query(&vec![4]));
}

#[test]
fn tags_are_grouped_per_post_in_row_order() {
    let tags = vec![tag(2, "a"), tag(1, "b"), tag(2, "c")];
    assert_eq!(tags_for(&tags, 2), vec!["a".to_string(), "c".to_string()]);
    assert_eq!(tags_for(&tags, 1), vec!["b".to_string()]);
    assert!(tags_for(&tags, 3).is_empty());
}

#[test]
fn listing_assembles_posts_with_their_tags() {
    let rows = vec![row(3, "c"), row(2, "b"), row(3, "again")];
    let tags = vec![tag(2, "rust"), tag(3, "news"), tag(3, "web")];
    let posts = assemble_posts(&rows, &tags);
    assert_eq!(posts.len(), 3);
    assert_eq!(posts[0].id, 3);
    assert_eq!(posts[0].title, "c");
    assert_eq!(posts[0].tags, vec!["news".to_string(), "web".to_string()]);
    assert_eq!(posts[1].tags, vec!["rust".to_string()]);
    // a repeated id gets no tags: each id's tags are handed out once
    assert!(posts[2].tags.is_empty());
    assert_eq!(posts[2].created_at, 1_003);
}

#[test]
fn author_text_is_parsed() {
    assert!(matches!(parse_author(ID_TEXT), Ok(id) if id == ID));
    assert!(matches!(parse_author("nope"), Err(RepoError::Unknown(_))));
}

#[test]
fn text_rows_fail_at_first_bad_author() {
    let good = TextPostRow { id: 1, author_id: ID_TEXT.to_string(), title: "t".into(), body: "b".into(), created_at: 5 };
    let bad = TextPostRow { id: 2, author_id: "xyz".into(), title: "t".into(), body: "b".into(), created_at: 6 };
    let parsed = parse_post_rows(&vec![good]).ok().unwrap();
    assert_eq!(parsed[0].author_id, ID);
    let good = TextPostRow { id: 1, author_id: ID_TEXT.to_string(), title: "t".into(), body: "b".into(), created_at: 5 };
    let expected = uuid::Uuid::parse_str("xyz").err().unwrap().to_string();
    match parse_post_rows(&vec![good, bad]) {
        Err(RepoError::Unknown(m)) => assert_eq!(m, expected),
        _ => panic!("expected a parse error"),
    }
}

#[test]
fn missing_post_is_not_found() {
    assert!(matches!(found_post(None, &vec![]), Err(RepoError::NotFound)));
    let post = found_post(Some(row(9, "x")), &vec![tag(9, "t"), tag(8, "u")]).ok().unwrap();
    assert_eq!(post.id, 9);
    assert_eq!(post.tags, vec!["t".to_string()]);
}

#[test]
fn insert_ids_become_post_ids() {
    assert_eq!(post_id_of_insert(42), 42);
    assert_eq!(post_id_of_insert(u64::MAX), -1);
    assert_eq!(post_id_of_insert(1u64 << 63), i64::MIN);
}

#[test]
fn created_post_keeps_the_input() {
    let params = CreateParams { author_id: ID, title: "T".into(), body: "B".into(), tags: vec!["x".into()] };
    let post = created_post(params, 12, 77);
    assert_eq!((post.id, post.author_id, post.created_at), (12, ID, 77));
    assert_eq!(post.title, "T");
    assert_eq!(post.tags, vec!["x".to_string()]);
}

#[test]
fn update_of_unowned_post_is_not_found() {
    let params = UpdateParams { id: 1, author_id: ID, title: None, body: None, tags: None };
    assert!(matches!(plan_update(params, None), Err(RepoError::NotFound)));
}

#[test]
fn update_of_a_row_of_another_author_or_post_is_not_found() {
    let params = UpdateParams { id: 1, author_id: ID + 1, title: None, body: None, tags: None };
    assert!(matches!(plan_update(params, Some(row(1, "old"))), Err(RepoError::NotFound)));
    let params = UpdateParams { id: 2, author_id: ID, title: None, body: None, tags: None };
    assert!(matches!(plan_update(params, Some(row(1, "old"))), Err(RepoError::NotFound)));
}

#[test]
fn update_merges_given_fields() {
    let params = UpdateParams { id: 1, author_id: ID, title: Some("new".into()), body: None, tags: None };
    let plan = plan_update(params, Some(row(1, "old"))).ok().unwrap();
    assert_eq!(plan.title, "new");
    assert_eq!(plan.body, "body 1");
    assert!(plan.reads_stored_tags());
    let post = plan.into_post(vec!["kept".into()]);
    assert_eq!(post.tags, vec!["kept".to_string()]);
    assert_eq!(post.created_at, 1_001);
}

#[test]
fn update_with_tags_replaces_them() {
    let params = UpdateParams { id: 1, author_id: ID, title: None, body: Some("nb".into()), tags: Some(vec!["n".into()]) };
    let plan = plan_update(params, Some(row(1, "old"))).ok().unwrap();
    assert_eq!(plan.title, "old");
    assert!(!plan.reads_stored_tags());
    let post = plan.into_post(vec![]);
    assert_eq!(post.body, "nb");
    assert_eq!(post.tags, vec!["n".to_string()]);
}

#[test]
fn delete_of_nothing_is_not_found() {
    assert!(matches!(delete_outcome(0), Err(RepoError::NotFound)));
    assert!(delete_outcome(1).is_ok());
}

#[test]
fn users_from_rows() {
    assert!(matches!(found_user(None), Err(RepoError::NotFound)));
    let u = found_user(Some(User { id: ID, email: "e".into() })).ok().unwrap();
    assert_eq!(u.email, "e");
    let rows = vec![TextUserRow { id: ID_TEXT.into(), email: "a@b".into() }];
    let users = parse_user_rows(&rows).ok().unwrap();
    assert_eq!(users[0].id, ID);
    let rows = vec![TextUserRow { id: "bad".into(), email: "a@b".into() }];
    assert!(matches!(parse_user_rows(&rows), Err(RepoError::Unknown(_))));
}

#[test]
fn uuid_text_is_hyphenated_and_reads_back() {
    assert_eq!(uuid_text(ID), ID_TEXT);
    assert_eq!(parse_author(&uuid_text(ID)).ok(), Some(ID));
    assert_eq!(uuid_text(0), "00000000-0000-0000-0000-000000000000");
}

#[test]
fn text_rows_list_the_same_posts_as_uuid_rows() {
    let rows = vec![row(2, "b"), row(1, "a"), row(2, "b")];
    let text_rows: Vec<TextPostRow> = rows
        .iter()
        .map(|r| TextPostRow {
            id: r.id,
            author_id: uuid_text(r.author_id),
            title: r.title.clone(),
            body: r.body.clone(),
            created_at: r.created_at,
        })
        .collect();
    let tags = vec![tag(1, "x"), tag(2, "y"), tag(2, "z")];
    let from_uuids = assemble_posts(&rows, &tags);
    let from_texts = assemble_posts(&parse_post_rows(&text_rows).ok().unwrap(), &tags);
    assert_eq!(from_uuids.len(), from_texts.len());
    for (a, b) in from_uuids.iter().zip(from_texts.iter()) {
        assert_eq!((a.id, a.author_id, &a.title, &a.body, &a.tags, a.created_at), (b.id, b.author_id, &b.title, &b.body, &b.tags, b.created_at));
    }
}

#[test]
fn the_same_update_twice_changes_nothing_more() {
    let patch = || UpdateParams { id: 1, author_id: ID, title: Some("new".into()), body: None, tags: Some(vec!["t".into()]) };
    let first = plan_update(patch(), Some(row(1, "old"))).ok().unwrap().into_post(vec!["old".into()]);
    let stored = PostRow { id: 1, author_id: ID, title: first.title.clone(), body: first.body.clone(), created_at: first.created_at };
    let second = plan_update(patch(), Some(stored)).ok().unwrap().into_post(first.tags.clone());
    assert_eq!((first.id, &first.title, &first.body, &first.tags, first.created_at), (second.id, &second.title, &second.body, &second.tags, second.created_at));
}
