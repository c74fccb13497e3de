use itx::error::{BackendError, RepoError};
use itx::feature::post::use_case::{create_post, delete_post, get_post, list_posts, update_post};
use itx::feature::user::use_case::{get_me, list_subscriptions, subscribe, unsubscribe};
use itx::repo::post::Post;
use itx::repo::user::User;

const ME: u128 = 11;
const OTHER: u128 = 22;

fn post(id: i64, author_id: u128) -> Post {
    Post { id, author_id, title: "t".into(), body: "b".into(), tags: vec!["x".into()], created_at: 9 }
}

#[test]
fn get_post_of_other_author_is_not_found() {
    let params = get_post::ExecuteParams { id: 5, user_id: ME };
    assert_eq!(get_post::request(&params).id, 5);
    assert!(matches!(get_post::respond(&params, Ok(post(5, OTHER))), Err(BackendError::NotFound)));
    let dto = get_post::respond(&params, Ok(post(5, ME))).ok().unwrap();
    assert_eq!((dto.id, dto.author_id, dto.created_at), (5, ME, 9));
    assert!(matches!(get_post::respond(&params, Err(RepoError::NotFound)), Err(BackendError::NotFound)));
}

#[test]
fn list_posts_asks_for_own_posts() {
    let params = list_posts::ExecuteParams { user_id: ME, limit: 10, offset: 20 };
    let list = list_posts::request(&params);
    assert_eq!((list.author_id, list.limit, list.offset), (Some(ME), 10, 20));
    let out = list_posts::respond(Ok(vec![post(2, ME), post(1, ME)])).ok().unwrap();
    assert_eq!(out.items.len(), 2);
    assert_eq!(out.items[0].id, 2);
    assert!(matches!(list_posts::respond(Err(RepoError::Unknown("x".into()))), Err(BackendError::Unknown(m)) if m == "x"));
}

#[test]
fn create_post_is_authored_by_caller() {
    let params = create_post::ExecuteParams { user_id: ME, title: "T".into(), body: "B".into(), tags: vec![] };
    let create = create_post::request(params);
    assert_eq!(create.author_id, ME);
    assert_eq!(create.title, "T");
    let dto = create_post::respond(Ok(post(3, ME))).ok().unwrap();
    assert_eq!(dto.tags, vec!["x".to_string()]);
}

#[test]
fn update_and_delete_act_for_caller() {
    let params = update_post::ExecuteParams { id: 4, user_id: ME, title: Some("n".into()), body: None, tags: None };
    let update = update_post::request(params);
    assert_eq!((update.id, update.author_id), (4, ME));
    assert_eq!(update.title.as_deref(), Some("n"));
    assert!(matches!(update_post::respond(Err(RepoError::NotFound)), Err(BackendError::NotFound)));
    let params = delete_post::ExecuteParams { id: 4, user_id: ME };
    let delete = delete_post::request(&params);
    assert_eq!((delete.id, delete.author_id), (4, ME));
    assert!(delete_post::respond(Ok(())).is_ok());
    assert!(matches!(delete_post::respond(Err(RepoError::NotFound)), Err(BackendError::NotFound)));
}

#[test]
fn get_me_upserts_caller() {
    let upsert = get_me::request(get_me::ExecuteParams { user_id: ME, email: "me@x".into() });
    assert_eq!((upsert.id, upsert.email.as_str()), (ME, "me@x"));
    let dto = get_me::respond(Ok(User { id: ME, email: "me@x".into() })).ok().unwrap();
    assert_eq!(dto.email, "me@x");
}

#[test]
fn unknown_subscriber_is_not_an_empty_list() {
    let params = list_subscriptions::ExecuteParams { subscriber_id: ME };
    assert_eq!(list_subscriptions::lookup_request(&params), ME);
    assert!(matches!(list_subscriptions::after_lookup(&params, Err(RepoError::NotFound)), Err(BackendError::NotFound)));
    assert!(matches!(list_subscriptions::after_lookup(&params, Ok(())), Ok(ME)));
    let out = list_subscriptions::respond(Ok(vec![User { id: OTHER, email: "o@x".into() }])).ok().unwrap();
    assert_eq!(out.items[0].id, OTHER);
}

#[test]
fn subscribe_to_yourself_is_refused() {
    let params = subscribe::ExecuteParams { subscriber_id: ME, subscriber_email: "me@x".into(), author_id: ME };
    match subscribe::start(&params) {
        subscribe::Step::Done(Err(BackendError::BadRequest(m))) => assert_eq!(m, "cannot subscribe to yourself"),
        _ => panic!("expected a refusal"),
    }
}

#[test]
fn subscribe_runs_lookup_upsert_subscribe() {
    let params = subscribe::ExecuteParams { subscriber_id: ME, subscriber_email: "me@x".into(), author_id: OTHER };
    let step = subscribe::start(&params);
    assert!(matches!(step, subscribe::Step::GetAuthor(OTHER)));
    let step = subscribe::resume(&params, step, Ok(()));
    match &step {
        subscribe::Step::UpsertSubscriber(u) => assert_eq!((u.id, u.email.as_str()), (ME, "me@x")),
        _ => panic!("expected the upsert"),
    }
    let step = subscribe::resume(&params, step, Ok(()));
    match &step {
        subscribe::Step::Subscribe(s) => assert_eq!((s.subscriber_id, s.author_id), (ME, OTHER)),
        _ => panic!("expected the subscription"),
    }
    let step = subscribe::resume(&params, step, Ok(()));
    assert!(matches!(step, subscribe::Step::Done(Ok(()))));
}

#[test]
fn subscribe_to_unknown_author_stops_at_lookup() {
    let params = subscribe::ExecuteParams { subscriber_id: ME, subscriber_email: "me@x".into(), author_id: OTHER };
    let step = subscribe::start(&params);
    let step = subscribe::resume(&params, step, Err(RepoError::NotFound));
    assert!(matches!(step, subscribe::Step::Done(Err(BackendError::NotFound))));
    let step = subscribe::resume(&params, step, Ok(()));
    assert!(matches!(step, subscribe::Step::Done(Err(BackendError::NotFound))));
}

#[test]
fn unsubscribe_steps() {
    let me = unsubscribe::ExecuteParams { subscriber_id: ME, author_id: ME };
    match unsubscribe::start(&me) {
        unsubscribe::Step::Done(Err(BackendError::BadRequest(m))) => assert_eq!(m, "cannot unsubscribe from yourself"),
        _ => panic!("expected a refusal"),
    }
    let params = unsubscribe::ExecuteParams { subscriber_id: ME, author_id: OTHER };
    let step = unsubscribe::start(&params);
    assert!(matches!(step, unsubscribe::Step::GetAuthor(OTHER)));
    let step = unsubscribe::resume(&params, step, Ok(()));
    assert!(matches!(&step, unsubscribe::Step::Unsubscribe(u) if u.subscriber_id == ME && u.author_id == OTHER));
    let step = unsubscribe::resume(&params, step, Err(RepoError::Unknown("x".into())));
    assert!(matches!(step, unsubscribe::Step::Done(Err(BackendError::Unknown(m))) if m == "x"));
}
