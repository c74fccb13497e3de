use vstd::prelude::*;
use vstd::string::StringExecFns;
use crate::error::{backend_error_view_of, outcome_view, BackendError, BackendErrorView, RepoError, RepoErrorView};
use crate::repo::subscription::UnsubscribeParams;

verus! {

/// Remove the caller's subscription to an author.
pub struct ExecuteParams {
    pub subscriber_id: u128,
    pub author_id: u128,
}

/// Where the use case stands: the repository call it waits for, or its end.
pub enum Step {
    /// Look the author up (`UserRepo::get`), so that an unknown author is
    /// reported as not found.
    GetAuthor(u128),
    /// Remove the subscription (`SubscriptionRepo::unsubscribe`).
    Unsubscribe(UnsubscribeParams),
    /// The use case's answer.
    Done(Result<(), BackendError>),
}

pub enum StepView {
    GetAuthor(u128),
    Unsubscribe { subscriber_id: u128, author_id: u128 },
    Done(Result<(), BackendErrorView>),
}

impl View for Step {
    type V = StepView;

    open spec fn view(&self) -> StepView {
        match self {
            Step::GetAuthor(id) => StepView::GetAuthor(*id),
            Step::Unsubscribe(u) => StepView::Unsubscribe {
                subscriber_id: u.subscriber_id,
                author_id: u.author_id,
            },
            Step::Done(r) => StepView::Done(
                match r {
                    Ok(()) => Ok(()),
                    Err(e) => Err(e@),
                },
            ),
        }
    }
}

/// The message that refuses to unsubscribe from oneself.
pub open spec fn self_unsubscription_message() -> Seq<char> {
    "cannot unsubscribe from yourself"@
}

/// The first step: unsubscribing from oneself is refused at once; otherwise
/// the author is looked up.
pub open spec fn start_spec(p: ExecuteParams) -> StepView {
    if p.subscriber_id == p.author_id {
        StepView::Done(Err(BackendErrorView::BadRequest(self_unsubscription_message())))
    } else {
        StepView::GetAuthor(p.author_id)
    }
}

/// The step after a repository call's outcome: a failure ends the use case
/// with that failure; after a found author the subscription is removed, and
/// after that the use case succeeds.
pub open spec fn resume_spec(p: ExecuteParams, s: StepView, o: Result<(), RepoErrorView>) -> StepView {
    match s {
        StepView::Done(r) => StepView::Done(r),
        _ => match o {
            Err(e) => StepView::Done(Err(backend_error_view_of(e))),
            Ok(()) => match s {
                StepView::GetAuthor(_) => StepView::Unsubscribe {
                    subscriber_id: p.subscriber_id,
                    author_id: p.author_id,
                },
                _ => StepView::Done(Ok(())),
            },
        },
    }
}

/// The step reached from the start once the given outcomes have been fed
/// back, in order.
pub open spec fn run_spec(p: ExecuteParams, outcomes: Seq<Result<(), RepoErrorView>>) -> StepView
    decreases outcomes.len(),
{
    if outcomes.len() == 0 {
        start_spec(p)
    } else {
        resume_spec(p, run_spec(p, outcomes.drop_last()), outcomes.last())
    }
}

/// The first step of an unsubscription.
pub fn start(params: &ExecuteParams) -> (step: Step)
    ensures
        step@ == start_spec(*params),
{
    if params.subscriber_id == params.author_id {
        return Step::Done(Err(BackendError::BadRequest(String::from_str("cannot unsubscribe from yourself"))));
    }
    Step::GetAuthor(params.author_id)
}

/// The next step, once the outcome of the current step's call is known.
pub fn resume(params: &ExecuteParams, step: Step, outcome: Result<(), RepoError>) -> (next: Step)
    ensures
        next@ == resume_spec(*params, step@, outcome_view(outcome)),
{
    match step {
        Step::Done(r) => Step::Done(r),
        _ => match outcome {
            Err(e) => Step::Done(Err(BackendError::from(e))),
            Ok(()) => match step {
                Step::GetAuthor(_) => Step::Unsubscribe(UnsubscribeParams {
                    subscriber_id: params.subscriber_id,
                    author_id: params.author_id,
                }),
                _ => Step::Done(Ok(())),
            },
        },
    }
}

/// Unsubscribing from oneself is refused with "cannot unsubscribe from
/// yourself", whatever the repositories would answer.
pub proof fn lemma_self_unsubscription_refused(p: ExecuteParams, outcomes: Seq<Result<(), RepoErrorView>>)
    requires
        p.subscriber_id == p.author_id,
    ensures
        run_spec(p, outcomes) == StepView::Done(Err(BackendErrorView::BadRequest(self_unsubscription_message()))),
    decreases outcomes.len(),
{
    if outcomes.len() > 0 {
        lemma_self_unsubscription_refused(p, outcomes.drop_last());
    }
}

/// The subscription is only removed after the author was found: whenever
/// the use case asks to unsubscribe, the caller is not the author and the
/// first outcome, the author lookup's, was a success.
pub proof fn lemma_unsubscribes_only_after_author_found(p: ExecuteParams, outcomes: Seq<Result<(), RepoErrorView>>)
    requires
        run_spec(p, outcomes) is Unsubscribe,
    ensures
        p.subscriber_id != p.author_id,
        outcomes.len() == 1,
        outcomes[0] is Ok,
    decreases outcomes.len(),
{
    if p.subscriber_id == p.author_id {
        lemma_self_unsubscription_refused(p, outcomes);
    }
    if outcomes.len() == 1 {
        assert(outcomes.drop_last() =~= Seq::<Result<(), RepoErrorView>>::empty());
        assert(outcomes.last() == outcomes[0]);
        assert(run_spec(p, outcomes.drop_last()) == start_spec(p));
    } else if outcomes.len() > 1 {
        let prev = run_spec(p, outcomes.drop_last());
        assert(prev is GetAuthor);
        lemma_lookup_is_first(p, outcomes.drop_last());
    }
}

proof fn lemma_lookup_is_first(p: ExecuteParams, outcomes: Seq<Result<(), RepoErrorView>>)
    requires
        run_spec(p, outcomes) is GetAuthor,
    ensures
        outcomes.len() == 0,
    decreases outcomes.len(),
{
    if outcomes.len() > 0 {
        let prev = run_spec(p, outcomes.drop_last());
        assert(!(prev is Done));
    }
}

/// With both calls successful the unsubscription succeeds; the first
/// failing call's error, made a backend error, is the answer otherwise.
pub proof fn lemma_unsubscribe_outcome(
    p: ExecuteParams,
    lookup: Result<(), RepoErrorView>,
    unsubscribe: Result<(), RepoErrorView>,
)
    requires
        p.subscriber_id != p.author_id,
    ensures
        run_spec(p, seq![lookup, unsubscribe]) == (match lookup {
            Err(e) => StepView::Done(Err(backend_error_view_of(e))),
            Ok(()) => match unsubscribe {
                Err(e) => StepView::Done(Err(backend_error_view_of(e))),
                Ok(()) => StepView::Done(Ok(())),
            },
        }),
{
    let s2 = seq![lookup, unsubscribe];
    let s1 = seq![lookup];
    assert(s2.drop_last() =~= s1);
    assert(s1.drop_last() =~= Seq::<Result<(), RepoErrorView>>::empty());
    assert(run_spec(p, s1.drop_last()) == start_spec(p));
    assert(run_spec(p, s1) == resume_spec(p, start_spec(p), lookup));
    assert(run_spec(p, s2) == resume_spec(p, run_spec(p, s1), unsubscribe));
}

} // verus!
