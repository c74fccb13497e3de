use vstd::prelude::*;
use vstd::string::StringExecFns;
use crate::error::{backend_error_view_of, outcome_view, BackendError, BackendErrorView, RepoError, RepoErrorView};
use crate::repo::subscription::SubscribeParams;
use crate::repo::user::UpsertParams;

verus! {

/// Subscribe the caller to an author's posts.
pub struct ExecuteParams {
    pub subscriber_id: u128,
    pub subscriber_email: String,
    pub author_id: u128,
}

pub struct ExecuteParamsView {
    pub subscriber_id: u128,
    pub subscriber_email: Seq<char>,
    pub author_id: u128,
}

impl View for ExecuteParams {
    type V = ExecuteParamsView;

    open spec fn view(&self) -> ExecuteParamsView {
        ExecuteParamsView {
            subscriber_id: self.subscriber_id,
            subscriber_email: self.subscriber_email@,
            author_id: self.author_id,
        }
    }
}

/// Where the use case stands: the repository call it waits for, or its end.
pub enum Step {
    /// Look the author up (`UserRepo::get`), so that an unknown author is
    /// reported as not found.
    GetAuthor(u128),
    /// Make sure the subscriber's user row exists (`UserRepo::upsert`).
    UpsertSubscriber(UpsertParams),
    /// Record the subscription (`SubscriptionRepo::subscribe`).
    Subscribe(SubscribeParams),
    /// The use case's answer.
    Done(Result<(), BackendError>),
}

pub enum StepView {
    GetAuthor(u128),
    UpsertSubscriber { id: u128, email: Seq<char> },
    Subscribe { subscriber_id: u128, author_id: u128 },
    Done(Result<(), BackendErrorView>),
}

impl View for Step {
    type V = StepView;

    open spec fn view(&self) -> StepView {
        match self {
            Step::GetAuthor(id) => StepView::GetAuthor(*id),
            Step::UpsertSubscriber(u) => StepView::UpsertSubscriber { id: u.id, email: u.email@ },
            Step::Subscribe(s) => StepView::Subscribe {
                subscriber_id: s.subscriber_id,
                author_id: s.author_id,
            },
            Step::Done(r) => StepView::Done(
                match r {
                    Ok(()) => Ok(()),
                    Err(e) => Err(e@),
                },
            ),
        }
    }
}

/// The message that refuses a subscription to oneself.
pub open spec fn self_subscription_message() -> Seq<char> {
    "cannot subscribe to yourself"@
}

/// The first step: a subscription to oneself is refused at once; otherwise
/// the author is looked up.
pub open spec fn start_spec(p: ExecuteParamsView) -> StepView {
    if p.subscriber_id == p.author_id {
        StepView::Done(Err(BackendErrorView::BadRequest(self_subscription_message())))
    } else {
        StepView::GetAuthor(p.author_id)
    }
}

/// The step after a repository call's outcome: a failure ends the use case
/// with that failure; a success moves on to the next call, and after the
/// subscription is recorded the use case succeeds.
pub open spec fn resume_spec(p: ExecuteParamsView, s: StepView, o: Result<(), RepoErrorView>) -> StepView {
    match s {
        StepView::Done(r) => StepView::Done(r),
        _ => match o {
            Err(e) => StepView::Done(Err(backend_error_view_of(e))),
            Ok(()) => match s {
                StepView::GetAuthor(_) => StepView::UpsertSubscriber {
                    id: p.subscriber_id,
                    email: p.subscriber_email,
                },
                StepView::UpsertSubscriber { .. } => StepView::Subscribe {
                    subscriber_id: p.subscriber_id,
                    author_id: p.author_id,
                },
                _ => StepView::Done(Ok(())),
            },
        },
    }
}

/// The step reached from the start once the given outcomes have been fed
/// back, in order.
pub open spec fn run_spec(p: ExecuteParamsView, outcomes: Seq<Result<(), RepoErrorView>>) -> StepView
    decreases outcomes.len(),
{
    if outcomes.len() == 0 {
        start_spec(p)
    } else {
        resume_spec(p, run_spec(p, outcomes.drop_last()), outcomes.last())
    }
}

/// Whether a step writes: upserts the subscriber or records the
/// subscription.
pub open spec fn writes(s: StepView) -> bool {
    s is UpsertSubscriber || s is Subscribe
}

/// The first step of a subscription.
pub fn start(params: &ExecuteParams) -> (step: Step)
    ensures
        step@ == start_spec(params@),
{
    if params.subscriber_id == params.author_id {
        return Step::Done(Err(BackendError::BadRequest(String::from_str("cannot subscribe to yourself"))));
    }
    Step::GetAuthor(params.author_id)
}

/// The next step, once the outcome of the current step's call is known.
pub fn resume(params: &ExecuteParams, step: Step, outcome: Result<(), RepoError>) -> (next: Step)
    ensures
        next@ == resume_spec(params@, step@, outcome_view(outcome)),
{
    match step {
        Step::Done(r) => Step::Done(r),
        _ => match outcome {
            Err(e) => Step::Done(Err(BackendError::from(e))),
            Ok(()) => match step {
                Step::GetAuthor(_) => Step::UpsertSubscriber(UpsertParams {
                    id: params.subscriber_id,
                    email: params.subscriber_email.clone(),
                }),
                Step::UpsertSubscriber(_) => Step::Subscribe(SubscribeParams {
                    subscriber_id: params.subscriber_id,
                    author_id: params.author_id,
                }),
                _ => Step::Done(Ok(())),
            },
        },
    }
}

/// A subscription to oneself is refused with "cannot subscribe to
/// yourself", whatever the repositories would answer, and no repository is
/// ever called.
pub proof fn lemma_self_subscription_refused(p: ExecuteParamsView, outcomes: Seq<Result<(), RepoErrorView>>)
    requires
        p.subscriber_id == p.author_id,
    ensures
        run_spec(p, outcomes) == StepView::Done(Err(BackendErrorView::BadRequest(self_subscription_message()))),
    decreases outcomes.len(),
{
    if outcomes.len() > 0 {
        lemma_self_subscription_refused(p, outcomes.drop_last());
    }
}

/// Nothing is written unless the author was found: whenever the use case
/// asks to upsert the subscriber or record the subscription, the caller is
/// not the author and the author lookup succeeded.
pub proof fn lemma_writes_only_after_author_found(p: ExecuteParamsView, outcomes: Seq<Result<(), RepoErrorView>>)
    requires
        writes(run_spec(p, outcomes)),
    ensures
        p.subscriber_id != p.author_id,
        outcomes.len() >= 1,
        outcomes[0] is Ok,
    decreases outcomes.len(),
{
    if p.subscriber_id == p.author_id {
        lemma_self_subscription_refused(p, outcomes);
    }
    if outcomes.len() == 1 {
        assert(outcomes.drop_last() =~= Seq::<Result<(), RepoErrorView>>::empty());
        assert(outcomes.last() == outcomes[0]);
        assert(run_spec(p, outcomes.drop_last()) == start_spec(p));
    } else if outcomes.len() > 1 {
        let prev = run_spec(p, outcomes.drop_last());
        assert(outcomes.drop_last()[0] == outcomes[0]);
        if !writes(prev) {
            // Only the author lookup leads to a write.
            assert(prev is GetAuthor);
            lemma_first_step_is_lookup(p, outcomes.drop_last());
        } else {
            lemma_writes_only_after_author_found(p, outcomes.drop_last());
        }
    }
}

/// The author lookup is only ever the first request.
proof fn lemma_first_step_is_lookup(p: ExecuteParamsView, outcomes: Seq<Result<(), RepoErrorView>>)
    requires
        run_spec(p, outcomes) is GetAuthor,
    ensures
        outcomes.len() == 0,
    decreases outcomes.len(),
{
    if outcomes.len() > 0 {
        let prev = run_spec(p, outcomes.drop_last());
        assert(!(prev is Done));
    }
}

/// With three successful calls the subscription succeeds; the first failing
/// call's error, made a backend error, is the answer otherwise.
pub proof fn lemma_subscribe_outcome(
    p: ExecuteParamsView,
    lookup: Result<(), RepoErrorView>,
    upsert: Result<(), RepoErrorView>,
    subscribe: Result<(), RepoErrorView>,
)
    requires
        p.subscriber_id != p.author_id,
    ensures
        run_spec(p, seq![lookup, upsert, subscribe]) == (match lookup {
            Err(e) => StepView::Done(Err(backend_error_view_of(e))),
            Ok(()) => match upsert {
                Err(e) => StepView::Done(Err(backend_error_view_of(e))),
                Ok(()) => match subscribe {
                    Err(e) => StepView::Done(Err(backend_error_view_of(e))),
                    Ok(()) => StepView::Done(Ok(())),
                },
            },
        }),
{
    let s3 = seq![lookup, upsert, subscribe];
    let s2 = seq![lookup, upsert];
    let s1 = seq![lookup];
    assert(s3.drop_last() =~= s2);
    assert(s2.drop_last() =~= s1);
    assert(s1.drop_last() =~= Seq::<Result<(), RepoErrorView>>::empty());
    assert(run_spec(p, s1.drop_last()) == start_spec(p));
    assert(run_spec(p, s1) == resume_spec(p, start_spec(p), lookup));
    assert(run_spec(p, s2) == resume_spec(p, run_spec(p, s1), upsert));
    assert(run_spec(p, s3) == resume_spec(p, run_spec(p, s2), subscribe));
}

} // verus!
