use itx::dispatcher::{notifications, notify, resume, start, Event, PostCreatedMessageBody, Step};
use itx::error::{HandlerError, RepoError};
use itx::queue::{
    amqp_url, consumer_tag, deletes_message, plan_delivery, plan_message, settle_delivery,
    DeliveryPlan, QueueKind, RabbitMessageQueueFactoryProps, Settlement, SqsMessageQueueFactoryProps, SqsPlan,
};
use itx::repo::post::Post;
use itx::repo::user::User;
use itx::text::decimal_string;

fn rabbit() -> RabbitMessageQueueFactoryProps {
    RabbitMessageQueueFactoryProps {
        host: "mq".into(),
        port: 5672,
        user: "guest".into(),
        password: "pw".into(),
        max_concurrency: 4,
        control_standard_queue: "cs".into(),
        control_premium_queue: "cp".into(),
        compute_standard_queue: "ks".into(),
        compute_premium_queue: "kp".into(),
    }
}

#[test]
fn decimal_text() {
    assert_eq!(decimal_string(0), "0");
    assert_eq!(decimal_string(5672), "5672");
    assert_eq!(decimal_string(u64::MAX), u64::MAX.to_string());
}

#[test]
fn amqp_url_format() {
    assert_eq!(amqp_url(&rabbit()), "amqp://guest:pw@mq:5672/%2F");
}

#[test]
fn queue_names_per_kind() {
    let p = rabbit();
    assert_eq!(p.queue_name(QueueKind::ControlStandard), "cs");
    assert_eq!(p.queue_name(QueueKind::ControlPremium), "cp");
    assert_eq!(p.queue_name(QueueKind::ComputeStandard), "ks");
    assert_eq!(p.queue_name(QueueKind::ComputePremium), "kp");
    let s = SqsMessageQueueFactoryProps {
        local_endpoint_url: None,
        max_concurrency: 1,
        control_standard_queue_url: "u1".into(),
        control_premium_queue_url: "u2".into(),
        compute_standard_queue_url: "u3".into(),
        compute_premium_queue_url: "u4".into(),
    };
    assert_eq!(s.queue_url(QueueKind::ComputePremium), "u4");
    assert_eq!(s.queue_url(QueueKind::ControlStandard), "u1");
}

#[test]
fn consumer_tags_are_fresh() {
    let a = consumer_tag();
    let b = consumer_tag();
    assert!(a.starts_with("itx-"));
    assert_eq!(a.len(), 40);
    assert_ne!(a, b);
    let hex = &a[4..];
    for (i, c) in hex.chars().enumerate() {
        if i == 8 || i == 13 || i == 18 || i == 23 {
            assert_eq!(c, '-');
        } else {
            assert!(c.is_ascii_digit() || ('a'..='f').contains(&c));
        }
    }
    assert_eq!(&hex[14..15], "4");
    assert!(["8", "9", "a", "b"].contains(&&hex[19..20]));
}

#[test]
fn rabbit_deliveries_are_acked_or_dead_lettered() {
    assert!(matches!(plan_delivery(b"hello"), DeliveryPlan::Handle(s) if s == "hello"));
    assert!(matches!(plan_delivery(&[0xff, 0xfe]), DeliveryPlan::Settle(Settlement::Reject { requeue: false })));
    assert!(matches!(settle_delivery(&Ok(())), Settlement::Ack));
    assert!(matches!(settle_delivery(&Err(HandlerError::Decode("x".into()))), Settlement::Reject { requeue: false }));
}

#[test]
fn sqs_messages_are_deleted_only_when_handled() {
    assert!(matches!(plan_message(None, Some("r".into())), SqsPlan::Skip));
    assert!(matches!(plan_message(Some("b".into()), None), SqsPlan::Skip));
    assert!(matches!(plan_message(Some("b".into()), Some("r".into())), SqsPlan::Handle { body, receipt } if body == "b" && receipt == "r"));
    assert!(deletes_message(&Ok(())));
    assert!(!deletes_message(&Err(HandlerError::Email("down".into()))));
}

#[test]
fn notification_text() {
    let m = notify(&"author@x".to_string(), &"Hello".to_string(), &User { id: 1, email: "sub@x".into() });
    assert_eq!(m.to, "sub@x");
    assert_eq!(m.subject, "author@x just published a new post");
    assert_eq!(m.body, "Check out the new post: Hello");
    let all = notifications(&"a".to_string(), &"t".to_string(), &vec![User { id: 1, email: "s1".into() }, User { id: 2, email: "s2".into() }]);
    assert_eq!(all.len(), 2);
    assert_eq!(all[1].to, "s2");
}

fn message() -> PostCreatedMessageBody {
    PostCreatedMessageBody { post_id: 7, author_id: 1 }
}

fn the_post() -> Post {
    Post { id: 7, author_id: 1, title: "News".into(), body: "b".into(), tags: vec![], created_at: 0 }
}

#[test]
fn post_created_notifies_then_marks() {
    let step = start(&message());
    assert!(matches!(step, Step::GetPost { post_id: 7, author_id: 1 }));
    let step = resume(step, Event::PostFound(Ok(the_post())));
    assert!(matches!(&step, Step::GetAuthor { post_id: 7, author_id: 1, title } if title == "News"));
    let step = resume(step, Event::AuthorFound(Ok(User { id: 1, email: "a@x".into() })));
    let subs = vec![User { id: 2, email: "s1".into() }, User { id: 3, email: "s2".into() }];
    let step = resume(step, Event::SubscribersListed(Ok(subs)));
    assert!(matches!(step, Step::Send { post_id: 7, .. }));
    assert_eq!(step.pending_email().unwrap().to, "s1");
    let step = resume(step, Event::EmailSent(Ok(())));
    assert_eq!(step.pending_email().unwrap().to, "s2");
    assert_eq!(step.pending_email().unwrap().subject, "a@x just published a new post");
    let step = resume(step, Event::EmailSent(Ok(())));
    assert!(matches!(step, Step::MarkNotified { post_id: 7 }));
    let step = resume(step, Event::Notified(Ok(())));
    assert!(matches!(step, Step::Done(Ok(()))));
}

#[test]
fn no_subscribers_goes_straight_to_marking() {
    let step = resume(start(&message()), Event::PostFound(Ok(the_post())));
    let step = resume(step, Event::AuthorFound(Ok(User { id: 1, email: "a@x".into() })));
    let step = resume(step, Event::SubscribersListed(Ok(vec![])));
    assert!(matches!(step, Step::MarkNotified { post_id: 7 }));
}

#[test]
fn failed_email_stops_handling() {
    let step = resume(start(&message()), Event::PostFound(Ok(the_post())));
    let step = resume(step, Event::AuthorFound(Ok(User { id: 1, email: "a@x".into() })));
    let step = resume(step, Event::SubscribersListed(Ok(vec![User { id: 2, email: "s".into() }])));
    let step = resume(step, Event::EmailSent(Err(HandlerError::Email("smtp".into()))));
    assert!(matches!(&step, Step::Done(Err(HandlerError::Email(m))) if m == "smtp"));
    let step = resume(step, Event::Notified(Ok(())));
    assert!(matches!(step, Step::Done(Err(_))));
}

#[test]
fn missing_post_fails_handling() {
    let step = resume(start(&message()), Event::PostFound(Err(RepoError::NotFound)));
    assert!(matches!(step, Step::Done(Err(HandlerError::Repo(RepoError::NotFound)))));
}
