//! The control worker's handling of queue messages: when a post is created,
//! every subscriber of its author is sent a notification email, and the post
//! is then marked as notified.

use vstd::prelude::*;
use vstd::string::StringExecFns;
use crate::error::{HandlerError, HandlerErrorView, RepoError, RepoErrorView};
use crate::repo::post::{Post, PostId, PostView};
use crate::repo::user::{User, UserView};
use crate::ids::{parse_uuid_str, uuid_parse_str};

verus! {

/// The body of a "post created" message.
pub struct PostCreatedMessageBody {
    pub post_id: PostId,
    pub author_id: u128,
}

/// The author id of a message, sent as UUID text: the UUID, or an
/// undecodable message carrying the parser's message.
pub fn parse_message_author(text: &str) -> (res: Result<u128, HandlerError>)
    ensures
        match uuid_parse_str(text@) {
            Ok(id) => res matches Ok(v) && v == id,
            Err(msg) => res matches Err(e) && e@ == HandlerErrorView::Decode(msg),
        },
{
    match parse_uuid_str(text) {
        Ok(id) => Ok(id),
        Err(msg) => Err(HandlerError::Decode(msg)),
    }
}

/// The messages of the control queues.
pub enum MessageBody {
    PostCreated(PostCreatedMessageBody),
}

/// An email to send.
pub struct SendEmailMessage {
    pub to: String,
    pub subject: String,
    pub body: String,
}

pub struct EmailView {
    pub to: Seq<char>,
    pub subject: Seq<char>,
    pub body: Seq<char>,
}

impl View for SendEmailMessage {
    type V = EmailView;

    open spec fn view(&self) -> EmailView {
        EmailView { to: self.to@, subject: self.subject@, body: self.body@ }
    }
}

/// The views of a list of emails.
pub open spec fn emails_view(emails: Seq<SendEmailMessage>) -> Seq<EmailView> {
    emails.map_values(|m: SendEmailMessage| m@)
}

/// The notification of a new post, to one subscriber.
pub open spec fn notification(author_email: Seq<char>, title: Seq<char>, to: Seq<char>) -> EmailView {
    EmailView {
        to,
        subject: author_email + " just published a new post"@,
        body: "Check out the new post: "@ + title,
    }
}

/// The notifications of a new post, one per subscriber, in order.
pub open spec fn notifications_spec(author_email: Seq<char>, title: Seq<char>, subscribers: Seq<UserView>) -> Seq<EmailView> {
    Seq::new(subscribers.len(), |i: int| notification(author_email, title, subscribers[i].email))
}

/// Each subscriber, and only they, in order, is sent one notification: to
/// the subscriber's email, with the subject "<author email> just published a
/// new post" and the body "Check out the new post: <title>".
pub proof fn lemma_notifications_reach_each_subscriber(
    author_email: Seq<char>,
    title: Seq<char>,
    subscribers: Seq<UserView>,
)
    ensures
        notifications_spec(author_email, title, subscribers).len() == subscribers.len(),
        forall|i: int|
            0 <= i < subscribers.len() ==> {
                let m = #[trigger] notifications_spec(author_email, title, subscribers)[i];
                &&& m.to == subscribers[i].email
                &&& m.subject == author_email + " just published a new post"@
                &&& m.body == "Check out the new post: "@ + title
            },
{
}

/// The notification of a new post titled `post_title` by the author with
/// `author_email`, to `subscriber`.
pub fn notify(author_email: &String, post_title: &String, subscriber: &User) -> (m: SendEmailMessage)
    ensures
        m@ == notification(author_email@, post_title@, subscriber.email@),
{
    SendEmailMessage {
        to: subscriber.email.clone(),
        subject: author_email.clone().concat(" just published a new post"),
        body: String::from_str("Check out the new post: ").concat(post_title.as_str()),
    }
}

/// The notifications of a new post, one per subscriber, in order.
pub fn notifications(author_email: &String, post_title: &String, subscribers: &Vec<User>) -> (emails: Vec<SendEmailMessage>)
    ensures
        emails_view(emails@) == notifications_spec(author_email@, post_title@, subscribers@.map_values(|u: User| u@)),
{
    let mut emails: Vec<SendEmailMessage> = Vec::new();
    let mut i: usize = 0;
    while i < subscribers.len()
        invariant
            i <= subscribers@.len(),
            emails@.len() == i,
            forall|k: int| 0 <= k < i ==> #[trigger] emails@[k]@ == notification(author_email@, post_title@, subscribers@[k].email@),
        decreases subscribers@.len() - i,
    {
        emails.push(notify(author_email, post_title, &subscribers[i]));
        i = i + 1;
    }
    assert(emails_view(emails@) =~= notifications_spec(author_email@, post_title@, subscribers@.map_values(|u: User| u@)));
    emails
}

/// Where the handling of a "post created" message stands: the call it waits
/// for, with the ids it is made for, or its end.
pub enum Step {
    /// Read post `post_id` (`PostRepo::get`).
    GetPost { post_id: PostId, author_id: u128 },
    /// Read author `author_id` (`UserRepo::get`); the post's title is kept.
    GetAuthor { post_id: PostId, author_id: u128, title: String },
    /// List the subscribers of `author_id` (`SubscriptionRepo::list_subscribers`).
    ListSubscribers { post_id: PostId, author_id: u128, title: String, author_email: String },
    /// Send `emails[next]` (`EmailClient::send`).
    Send { post_id: PostId, emails: Vec<SendEmailMessage>, next: usize },
    /// Mark post `post_id` as notified (`PostRepo::mark_notified`).
    MarkNotified { post_id: PostId },
    /// The handling's result.
    Done(Result<(), HandlerError>),
}

pub enum StepView {
    GetPost { post_id: PostId, author_id: u128 },
    GetAuthor { post_id: PostId, author_id: u128, title: Seq<char> },
    ListSubscribers { post_id: PostId, author_id: u128, title: Seq<char>, author_email: Seq<char> },
    Send { post_id: PostId, emails: Seq<EmailView>, next: int },
    MarkNotified { post_id: PostId },
    Done(Result<(), HandlerErrorView>),
}

/// The outcome of a call that keeps no value, by its view.
pub open spec fn handler_result_view(r: Result<(), HandlerError>) -> Result<(), HandlerErrorView> {
    match r {
        Ok(()) => Ok(()),
        Err(e) => Err(e@),
    }
}

impl View for Step {
    type V = StepView;

    open spec fn view(&self) -> StepView {
        match self {
            Step::GetPost { post_id, author_id } => StepView::GetPost { post_id: *post_id, author_id: *author_id },
            Step::GetAuthor { post_id, author_id, title } => StepView::GetAuthor {
                post_id: *post_id,
                author_id: *author_id,
                title: title@,
            },
            Step::ListSubscribers { post_id, author_id, title, author_email } => StepView::ListSubscribers {
                post_id: *post_id,
                author_id: *author_id,
                title: title@,
                author_email: author_email@,
            },
            Step::Send { post_id, emails, next } => StepView::Send {
                post_id: *post_id,
                emails: emails_view(emails@),
                next: *next as int,
            },
            Step::MarkNotified { post_id } => StepView::MarkNotified { post_id: *post_id },
            Step::Done(r) => StepView::Done(handler_result_view(*r)),
        }
    }
}

/// What a call answered.
pub enum Event {
    PostFound(Result<Post, RepoError>),
    AuthorFound(Result<User, RepoError>),
    SubscribersListed(Result<Vec<User>, RepoError>),
    EmailSent(Result<(), HandlerError>),
    Notified(Result<(), RepoError>),
}

pub enum EventView {
    PostFound(Result<PostView, RepoErrorView>),
    AuthorFound(Result<UserView, RepoErrorView>),
    SubscribersListed(Result<Seq<UserView>, RepoErrorView>),
    EmailSent(Result<(), HandlerErrorView>),
    Notified(Result<(), RepoErrorView>),
}

impl View for Event {
    type V = EventView;

    open spec fn view(&self) -> EventView {
        match self {
            Event::PostFound(r) => EventView::PostFound(
                match r {
                    Ok(p) => Ok(p@),
                    Err(e) => Err(e@),
                },
            ),
            Event::AuthorFound(r) => EventView::AuthorFound(
                match r {
                    Ok(u) => Ok(u@),
                    Err(e) => Err(e@),
                },
            ),
            Event::SubscribersListed(r) => EventView::SubscribersListed(
                match r {
                    Ok(us) => Ok(us@.map_values(|u: User| u@)),
                    Err(e) => Err(e@),
                },
            ),
            Event::EmailSent(r) => EventView::EmailSent(handler_result_view(*r)),
            Event::Notified(r) => EventView::Notified(
                match r {
                    Ok(()) => Ok(()),
                    Err(e) => Err(e@),
                },
            ),
        }
    }
}

/// The first step for a message about post `post_id` by `author_id`: read
/// the post.
pub open spec fn start_spec(post_id: PostId, author_id: u128) -> StepView {
    StepView::GetPost { post_id, author_id }
}

/// The step after the current call's answer. A failure ends the handling
/// with that failure. The message's ids are carried along; the post's title
/// and the author's email are kept for the emails; an author without
/// subscribers goes straight to marking the post; after the last email the
/// post is marked; after that the handling succeeds. An answer that belongs
/// to another call leaves the step as it is.
pub open spec fn resume_spec(s: StepView, e: EventView) -> StepView {
    match (s, e) {
        (StepView::GetPost { post_id, author_id }, EventView::PostFound(r)) => match r {
            Err(err) => StepView::Done(Err(HandlerErrorView::Repo(err))),
            Ok(post) => StepView::GetAuthor { post_id, author_id, title: post.title },
        },
        (StepView::GetAuthor { post_id, author_id, title }, EventView::AuthorFound(r)) => match r {
            Err(err) => StepView::Done(Err(HandlerErrorView::Repo(err))),
            Ok(author) => StepView::ListSubscribers { post_id, author_id, title, author_email: author.email },
        },
        (
            StepView::ListSubscribers { post_id, author_id, title, author_email },
            EventView::SubscribersListed(r),
        ) => match r {
            Err(err) => StepView::Done(Err(HandlerErrorView::Repo(err))),
            Ok(subs) => if subs.len() == 0 {
                StepView::MarkNotified { post_id }
            } else {
                StepView::Send { post_id, emails: notifications_spec(author_email, title, subs), next: 0 }
            },
        },
        (StepView::Send { post_id, emails, next }, EventView::EmailSent(r)) => match r {
            Err(err) => StepView::Done(Err(err)),
            Ok(()) => if next + 1 < emails.len() {
                StepView::Send { post_id, emails, next: next + 1 }
            } else {
                StepView::MarkNotified { post_id }
            },
        },
        (StepView::MarkNotified { post_id }, EventView::Notified(r)) => match r {
            Err(err) => StepView::Done(Err(HandlerErrorView::Repo(err))),
            Ok(()) => StepView::Done(Ok(())),
        },
        _ => s,
    }
}

/// The step reached from the start for a message about post `post_id` by
/// `author_id`, once the given answers have been fed back, in order.
pub open spec fn run_spec(post_id: PostId, author_id: u128, events: Seq<EventView>) -> StepView
    decreases events.len(),
{
    if events.len() == 0 {
        start_spec(post_id, author_id)
    } else {
        resume_spec(run_spec(post_id, author_id, events.drop_last()), events.last())
    }
}

/// Whether a step is well formed: a pending email is one of its list.
pub open spec fn step_wf(s: StepView) -> bool {
    s matches StepView::Send { emails, next, .. } ==> 0 <= next < emails.len()
}

/// The first step of handling a "post created" message: read its post.
pub fn start(body: &PostCreatedMessageBody) -> (step: Step)
    ensures
        step@ == start_spec(body.post_id, body.author_id),
{
    Step::GetPost { post_id: body.post_id, author_id: body.author_id }
}

/// The next step, once the answer to the current step's call is known.
pub fn resume(step: Step, event: Event) -> (next: Step)
    requires
        step_wf(step@),
    ensures
        next@ == resume_spec(step@, event@),
        step_wf(next@),
{
    match (step, event) {
        (Step::GetPost { post_id, author_id }, Event::PostFound(r)) => match r {
            Err(err) => Step::Done(Err(HandlerError::Repo(err))),
            Ok(post) => Step::GetAuthor { post_id, author_id, title: post.title },
        },
        (Step::GetAuthor { post_id, author_id, title }, Event::AuthorFound(r)) => match r {
            Err(err) => Step::Done(Err(HandlerError::Repo(err))),
            Ok(author) => Step::ListSubscribers { post_id, author_id, title, author_email: author.email },
        },
        (Step::ListSubscribers { post_id, author_id, title, author_email }, Event::SubscribersListed(r)) => match r {
            Err(err) => Step::Done(Err(HandlerError::Repo(err))),
            Ok(subs) => {
                if subs.len() == 0 {
                    Step::MarkNotified { post_id }
                } else {
                    let emails = notifications(&author_email, &title, &subs);
                    Step::Send { post_id, emails, next: 0 }
                }
            },
        },
        (Step::Send { post_id, emails, next }, Event::EmailSent(r)) => match r {
            Err(err) => Step::Done(Err(err)),
            Ok(()) => {
                assert(emails_view(emails@).len() == emails@.len());
                if emails.len() - next > 1 {
                    Step::Send { post_id, emails, next: next + 1 }
                } else {
                    Step::MarkNotified { post_id }
                }
            },
        },
        (Step::MarkNotified { post_id }, Event::Notified(r)) => match r {
            Err(err) => Step::Done(Err(HandlerError::Repo(err))),
            Ok(()) => Step::Done(Ok(())),
        },
        (s, _) => s,
    }
}

impl Step {
    /// The email a `Send` step waits to have sent.
    pub fn pending_email(&self) -> (m: Option<&SendEmailMessage>)
        requires
            step_wf(self@),
        ensures
            match self@ {
                StepView::Send { emails, next, .. } => m matches Some(msg) && msg@ == emails[next],
                _ => m is None,
            },
    {
        match self {
            Step::Send { emails, next, .. } => Some(&emails[*next]),
            _ => None,
        }
    }
}

/// `n` successful email sends.
pub open spec fn sends_ok(n: nat) -> Seq<EventView> {
    Seq::new(n, |i: int| EventView::EmailSent(Ok(())))
}

proof fn lemma_run_push(post_id: PostId, author_id: u128, events: Seq<EventView>, e: EventView)
    ensures
        run_spec(post_id, author_id, events.push(e)) == resume_spec(run_spec(post_id, author_id, events), e),
{
    assert(events.push(e).drop_last() =~= events);
}

/// Every step reached asks for the message's own ids: the post read and the
/// post marked are the message's post, and the author read and whose
/// subscribers are listed is the message's author.
pub proof fn lemma_calls_use_message_ids(post_id: PostId, author_id: u128, events: Seq<EventView>)
    ensures
        ({
            let s = run_spec(post_id, author_id, events);
            &&& s matches StepView::GetPost { post_id: p, author_id: a } ==> p == post_id && a == author_id
            &&& s matches StepView::GetAuthor { post_id: p, author_id: a, .. } ==> p == post_id && a == author_id
            &&& s matches StepView::ListSubscribers { post_id: p, author_id: a, .. } ==> p == post_id && a == author_id
            &&& s matches StepView::Send { post_id: p, .. } ==> p == post_id
            &&& s matches StepView::MarkNotified { post_id: p } ==> p == post_id
        }),
    decreases events.len(),
{
    if events.len() > 0 {
        lemma_calls_use_message_ids(post_id, author_id, events.drop_last());
    }
}

/// A failed repository answer ends the handling with that failure, whichever
/// call it answers: reading the post, reading the author, listing the
/// subscribers or marking the post. In particular a failed listing is never
/// taken for an author without subscribers: nothing is sent and nothing
/// marked.
pub proof fn lemma_failed_repo_call_ends_handling(
    post_id: PostId,
    author_id: u128,
    post: PostView,
    author: UserView,
    subscribers: Seq<UserView>,
    err: RepoErrorView,
    later: Seq<EventView>,
)
    ensures
        run_spec(post_id, author_id, seq![EventView::PostFound(Err(err))] + later) == StepView::Done(
            Err(HandlerErrorView::Repo(err)),
        ),
        run_spec(post_id, author_id, seq![EventView::PostFound(Ok(post)), EventView::AuthorFound(Err(err))] + later)
            == StepView::Done(Err(HandlerErrorView::Repo(err))),
        run_spec(
            post_id,
            author_id,
            seq![
                EventView::PostFound(Ok(post)),
                EventView::AuthorFound(Ok(author)),
                EventView::SubscribersListed(Err(err)),
            ] + later,
        ) == StepView::Done(Err(HandlerErrorView::Repo(err))),
        run_spec(
            post_id,
            author_id,
            (seq![
                EventView::PostFound(Ok(post)),
                EventView::AuthorFound(Ok(author)),
                EventView::SubscribersListed(Ok(subscribers)),
            ] + sends_ok(subscribers.len())).push(EventView::Notified(Err(err))) + later,
        ) == StepView::Done(Err(HandlerErrorView::Repo(err))),
{
    let e0 = EventView::PostFound(Ok(post));
    let e1 = EventView::AuthorFound(Ok(author));
    let f0 = EventView::PostFound(Err(err));
    let f1 = EventView::AuthorFound(Err(err));
    let f2 = EventView::SubscribersListed(Err(err));
    lemma_run_push(post_id, author_id, Seq::empty(), f0);
    assert(Seq::<EventView>::empty().push(f0) =~= seq![f0]);
    lemma_done_is_final(post_id, author_id, seq![f0], later);
    lemma_run_push(post_id, author_id, Seq::empty(), e0);
    assert(Seq::<EventView>::empty().push(e0) =~= seq![e0]);
    lemma_run_push(post_id, author_id, seq![e0], f1);
    assert(seq![e0].push(f1) =~= seq![e0, f1]);
    lemma_done_is_final(post_id, author_id, seq![e0, f1], later);
    lemma_run_push(post_id, author_id, seq![e0], e1);
    assert(seq![e0].push(e1) =~= seq![e0, e1]);
    lemma_run_push(post_id, author_id, seq![e0, e1], f2);
    assert(seq![e0, e1].push(f2) =~= seq![e0, e1, f2]);
    lemma_done_is_final(post_id, author_id, seq![e0, e1, f2], later);
    lemma_notifies_every_subscriber(post_id, author_id, post, author, subscribers);
    let found = seq![e0, e1, EventView::SubscribersListed(Ok(subscribers))];
    let marked = found + sends_ok(subscribers.len());
    lemma_run_push(post_id, author_id, marked, EventView::Notified(Err(err)));
    lemma_done_is_final(post_id, author_id, marked.push(EventView::Notified(Err(err))), later);
}

/// Whether answer `k` is a successful listing of subscribers.
pub open spec fn listed_ok_at(events: Seq<EventView>, k: int) -> bool {
    events[k] matches EventView::SubscribersListed(Ok(_))
}

/// Whether answer `k` is a successful marking of the post.
pub open spec fn notified_ok_at(events: Seq<EventView>, k: int) -> bool {
    events[k] matches EventView::Notified(Ok(()))
}

/// No email is sent and the post is not marked unless the subscribers were
/// listed successfully; the handling succeeds only once the post has been
/// marked successfully.
pub proof fn lemma_marks_only_after_listing(post_id: PostId, author_id: u128, events: Seq<EventView>)
    ensures
        ({
            let s = run_spec(post_id, author_id, events);
            (s is Send || s is MarkNotified || s == StepView::Done(Ok(()))) ==> exists|k: int|
                0 <= k < events.len() && #[trigger] listed_ok_at(events, k)
        }),
        run_spec(post_id, author_id, events) == StepView::Done(Ok(())) ==> exists|k: int|
            0 <= k < events.len() && #[trigger] notified_ok_at(events, k),
    decreases events.len(),
{
    if events.len() > 0 {
        let prefix = events.drop_last();
        let last = events.len() - 1;
        lemma_marks_only_after_listing(post_id, author_id, prefix);
        if exists|k: int| 0 <= k < prefix.len() && #[trigger] listed_ok_at(prefix, k) {
            let k = choose|k: int| 0 <= k < prefix.len() && #[trigger] listed_ok_at(prefix, k);
            assert(listed_ok_at(events, k));
        }
        if exists|k: int| 0 <= k < prefix.len() && #[trigger] notified_ok_at(prefix, k) {
            let k = choose|k: int| 0 <= k < prefix.len() && #[trigger] notified_ok_at(prefix, k);
            assert(notified_ok_at(events, k));
        }
        if listed_ok_at(events, last) {
        }
        if notified_ok_at(events, last) {
        }
    }
}

/// Once the handling is done it stays done, whatever answers come after.
pub proof fn lemma_done_is_final(post_id: PostId, author_id: u128, events: Seq<EventView>, later: Seq<EventView>)
    requires
        run_spec(post_id, author_id, events) is Done,
    ensures
        run_spec(post_id, author_id, events + later) == run_spec(post_id, author_id, events),
    decreases later.len(),
{
    if later.len() == 0 {
        assert(events + later =~= events);
    } else {
        lemma_done_is_final(post_id, author_id, events, later.drop_last());
        assert((events + later) =~= (events + later.drop_last()).push(later.last()));
        lemma_run_push(post_id, author_id, events + later.drop_last(), later.last());
    }
}

/// From the first email on, `i` successful sends lead to the `i`-th email
/// (counting from 0), and sending them all leads to marking the post.
proof fn lemma_sends(post_id: PostId, author_id: u128, prefix: Seq<EventView>, emails: Seq<EmailView>, i: nat)
    requires
        run_spec(post_id, author_id, prefix) == (StepView::Send { post_id, emails, next: 0 }),
        0 < emails.len(),
        i <= emails.len(),
    ensures
        i < emails.len() ==> run_spec(post_id, author_id, prefix + sends_ok(i)) == (StepView::Send {
            post_id,
            emails,
            next: i as int,
        }),
        i == emails.len() ==> run_spec(post_id, author_id, prefix + sends_ok(i)) == (StepView::MarkNotified {
            post_id,
        }),
    decreases i,
{
    if i == 0 {
        assert(prefix + sends_ok(0) =~= prefix);
    } else {
        lemma_sends(post_id, author_id, prefix, emails, (i - 1) as nat);
        assert(prefix + sends_ok(i) =~= (prefix + sends_ok((i - 1) as nat)).push(EventView::EmailSent(Ok(()))));
        lemma_run_push(post_id, author_id, prefix + sends_ok((i - 1) as nat), EventView::EmailSent(Ok(())));
    }
}

/// When every call succeeds, each subscriber is sent, in order, the
/// notification with the author's email and the post's title, the message's
/// post is marked as notified after the last of them, and the handling
/// succeeds.
pub proof fn lemma_notifies_every_subscriber(
    post_id: PostId,
    author_id: u128,
    post: PostView,
    author: UserView,
    subscribers: Seq<UserView>,
)
    ensures
        ({
            let found = seq![
                EventView::PostFound(Ok(post)),
                EventView::AuthorFound(Ok(author)),
                EventView::SubscribersListed(Ok(subscribers)),
            ];
            let emails = notifications_spec(author.email, post.title, subscribers);
            &&& forall|i: nat| i < subscribers.len() ==> run_spec(post_id, author_id, #[trigger] (found + sends_ok(i)))
                == (StepView::Send { post_id, emails, next: i as int })
            &&& run_spec(post_id, author_id, found + sends_ok(subscribers.len())) == (StepView::MarkNotified { post_id })
            &&& run_spec(post_id, author_id, (found + sends_ok(subscribers.len())).push(EventView::Notified(Ok(()))))
                == StepView::Done(Ok(()))
        }),
{
    let e0 = EventView::PostFound(Ok(post));
    let e1 = EventView::AuthorFound(Ok(author));
    let e2 = EventView::SubscribersListed(Ok(subscribers));
    let found = seq![e0, e1, e2];
    let emails = notifications_spec(author.email, post.title, subscribers);
    lemma_run_push(post_id, author_id, Seq::empty(), e0);
    assert(Seq::<EventView>::empty().push(e0) =~= seq![e0]);
    lemma_run_push(post_id, author_id, seq![e0], e1);
    assert(seq![e0].push(e1) =~= seq![e0, e1]);
    lemma_run_push(post_id, author_id, seq![e0, e1], e2);
    assert(seq![e0, e1].push(e2) =~= found);
    if subscribers.len() == 0 {
        assert(found + sends_ok(0) =~= found);
    } else {
        assert forall|i: nat| i < subscribers.len() implies run_spec(post_id, author_id, #[trigger] (found + sends_ok(i)))
            == (StepView::Send { post_id, emails, next: i as int }) by {
            lemma_sends(post_id, author_id, found, emails, i);
        }
        lemma_sends(post_id, author_id, found, emails, subscribers.len());
    }
    lemma_run_push(post_id, author_id, found + sends_ok(subscribers.len()), EventView::Notified(Ok(())));
}

/// A failed email ends the handling with the email's error: the remaining
/// subscribers are not sent anything and the post is not marked as notified.
pub proof fn lemma_failed_email_stops(
    post_id: PostId,
    author_id: u128,
    events: Seq<EventView>,
    err: HandlerErrorView,
    later: Seq<EventView>,
)
    requires
        run_spec(post_id, author_id, events) is Send,
    ensures
        run_spec(post_id, author_id, events.push(EventView::EmailSent(Err(err))) + later) == StepView::Done(Err(err)),
{
    lemma_run_push(post_id, author_id, events, EventView::EmailSent(Err(err)));
    lemma_done_is_final(post_id, author_id, events.push(EventView::EmailSent(Err(err))), later);
}

} // verus!
