use itx::dispatcher::parse_message_author;
use itx::error::{BackendError, HandlerError, RepoError};
use itx::feature::health::list_targets;
use itx::feature::post::default_limit;
use itx::middleware::{
    extract_context, invalid_header, parse_path_id, parse_uuid_header, require_user, required_email, ItxContext,
};
use itx::props::{db_provider, queue_provider, DbProvider, QueueProvider};

const ID_TEXT: &str = "936da01f-9abd-4d9d-80c7-02af85c822a8";
const ID: u128 = 0x936da01f_9abd_4d9d_80c7_02af85c822a8;

#[test]
fn repo_not_found_becomes_404() {
    let reply = BackendError::from(RepoError::NotFound).into_response();
    assert_eq!(reply.status, 404);
    assert_eq!(reply.message, "not found");
}

#[test]
fn repo_unknown_becomes_500_with_its_text() {
    let reply = BackendError::from(RepoError::Unknown("db down".to_string())).into_response();
    assert_eq!(reply.status, 500);
    assert_eq!(reply.message, "db down");
}

#[test]
fn bad_request_becomes_400() {
    let reply = BackendError::BadRequest("nope".to_string()).into_response();
    assert_eq!(reply.status, 400);
    assert_eq!(reply.message, "nope");
}

#[test]
fn repo_error_becomes_handler_error() {
    assert!(matches!(HandlerError::from(RepoError::NotFound), HandlerError::Repo(RepoError::NotFound)));
}

#[test]
fn repo_err_carries_text() {
    assert!(matches!(itx::repo::rows::err("boom".to_string()), RepoError::Unknown(s) if s == "boom"));
    assert!(matches!(itx::queue::err("q".to_string()), itx::error::QueueError::Unknown(s) if s == "q"));
}

#[test]
fn health_is_ok() {
    assert_eq!(list_targets().status, "ok");
}

#[test]
fn listing_page_defaults_to_fifty() {
    assert_eq!(default_limit(), 50);
}

#[test]
fn context_takes_header_ids() {
    let req = "a1a2a3a4-b1b2-c1c2-d1d2-d3d4d5d6d7d8";
    let ctx = extract_context(Some(req.as_bytes()), Some(ID_TEXT.as_bytes()), Some("me@example.com".as_bytes())).ok().unwrap();
    assert_eq!(ctx.request_id, 0xa1a2a3a4_b1b2_c1c2_d1d2_d3d4d5d6d7d8);
    assert_eq!(ctx.user_id, Some(ID));
    assert_eq!(ctx.user_email.as_deref(), Some("me@example.com"));
}

#[test]
fn context_without_headers_has_no_user() {
    let ctx = extract_context(None, None, None).ok().unwrap();
    assert_eq!(ctx.user_id, None);
    assert!(ctx.user_email.is_none());
}

#[test]
fn invalid_user_header_is_400() {
    let reply = extract_context(None, Some("not-a-uuid".as_bytes()), None).err().unwrap();
    assert_eq!(reply.status, 400);
    assert_eq!(reply.message, "invalid x-itx-user-id");
}

#[test]
fn invalid_request_header_is_answered_first() {
    let reply = extract_context(Some("zz".as_bytes()), Some("also bad".as_bytes()), None).err().unwrap();
    assert_eq!(reply.message, "invalid x-itx-request-id");
}

#[test]
fn non_text_header_is_invalid() {
    let mut bytes = ID_TEXT.as_bytes().to_vec();
    bytes[0] = 0x7f;
    let reply = parse_uuid_header(Some(bytes.as_slice()), "x-itx-user-id").err().unwrap();
    assert_eq!(reply.status, 400);
}

#[test]
fn unreadable_email_header_counts_as_absent() {
    let ctx = extract_context(None, Some(ID_TEXT.as_bytes()), Some(&[0xffu8, 0x41u8][..])).ok().unwrap();
    assert_eq!(ctx.user_id, Some(ID));
    assert!(ctx.user_email.is_none());
}

#[test]
fn generated_request_id_is_version_4() {
    let ctx = extract_context(None, None, None).ok().unwrap();
    assert_eq!(ctx.request_id & 0xF000_C000_0000_0000_0000u128, 0x4000_8000_0000_0000_0000u128);
}

#[test]
fn uuid_header_forms() {
    assert_eq!(parse_uuid_header(None, "h").ok().unwrap(), None);
    let simple = "936da01f9abd4d9d80c702af85c822a8";
    assert_eq!(parse_uuid_header(Some(simple.as_bytes()), "h").ok().unwrap(), Some(ID));
    let braced = format!("{{{}}}", ID_TEXT);
    assert_eq!(parse_uuid_header(Some(braced.as_bytes()), "h").ok().unwrap(), Some(ID));
}

#[test]
fn invalid_header_message() {
    let reply = invalid_header("x-itx-request-id");
    assert_eq!(reply.status, 400);
    assert_eq!(reply.message, "invalid x-itx-request-id");
}

#[test]
fn user_routes_need_a_user() {
    let with_user = ItxContext { request_id: 1, user_id: Some(ID), user_email: None };
    assert!(require_user(Some(&with_user)).is_none());
    let without = ItxContext { request_id: 1, user_id: None, user_email: None };
    let reply = require_user(Some(&without)).unwrap();
    assert_eq!(reply.status, 401);
    assert_eq!(reply.message, "missing user");
    assert_eq!(require_user(None).unwrap().status, 401);
}

#[test]
fn email_is_required_for_user_rows() {
    let ctx = ItxContext { request_id: 1, user_id: Some(ID), user_email: None };
    match required_email(&ctx) {
        Err(BackendError::Unknown(m)) => assert_eq!(m, "missing X-Itx-User-Email"),
        _ => panic!("expected an error"),
    }
    let ctx = ItxContext { request_id: 1, user_id: Some(ID), user_email: Some("a@b".to_string()) };
    assert_eq!(required_email(&ctx).ok().unwrap(), "a@b");
}

#[test]
fn providers_default_and_refuse_unknown() {
    assert!(matches!(db_provider(None), Some(DbProvider::Postgres)));
    assert!(matches!(db_provider(Some(&"postgres".to_string())), Some(DbProvider::Postgres)));
    assert!(matches!(db_provider(Some(&"mariadb".to_string())), Some(DbProvider::MariaDb)));
    assert!(db_provider(Some(&"sqlite".to_string())).is_none());
    assert!(matches!(queue_provider(None), Some(QueueProvider::Sqs)));
    assert!(matches!(queue_provider(Some(&"sqs".to_string())), Some(QueueProvider::Sqs)));
    assert!(matches!(queue_provider(Some(&"rabbitmq".to_string())), Some(QueueProvider::RabbitMq)));
    assert!(queue_provider(Some(&"kafka".to_string())).is_none());
}

#[test]
fn path_ids_parse_or_are_bad_requests() {
    assert_eq!(parse_path_id(ID_TEXT).ok(), Some(ID));
    assert!(matches!(parse_path_id("nope"), Err(BackendError::BadRequest(m)) if !m.is_empty()));
}

#[test]
fn message_author_parses_or_is_undecodable() {
    assert_eq!(parse_message_author(ID_TEXT).ok(), Some(ID));
    assert!(matches!(parse_message_author("x"), Err(HandlerError::Decode(_))));
}
