//! The decisions of a queue listener, one answer at a time: what to do after
//! each delivery, handler result, acknowledgement or deletion, and when the
//! listener ends and with what result. The caller performs each step's call
//! and feeds back its answer.

use vstd::prelude::*;
use vstd::utf8::{decode_utf8, valid_utf8};
use crate::dispatcher::handler_result_view;
use crate::error::{HandlerError, HandlerErrorView, QueueError, QueueErrorView};
use crate::queue::{deletes_message, plan_delivery, plan_message, settle_delivery, DeliveryPlan, Settlement, SqsPlan};

verus! {

/// Where a RabbitMQ listener stands.
pub enum RabbitStep {
    /// Wait for the next delivery of the consumer stream.
    AwaitDelivery,
    /// Hand the current delivery's body to the handler.
    Handle(String),
    /// Settle the current delivery so.
    Settle(Settlement),
    /// The listener has ended, with this result.
    Stopped(Result<(), QueueError>),
}

pub enum RabbitStepView {
    AwaitDelivery,
    Handle(Seq<char>),
    Settle(Settlement),
    Stopped(Result<(), QueueErrorView>),
}

/// The outcome of a call that keeps no value, by its view.
pub open spec fn queue_result_view(r: Result<(), QueueError>) -> Result<(), QueueErrorView> {
    match r {
        Ok(()) => Ok(()),
        Err(e) => Err(e@),
    }
}

impl View for RabbitStep {
    type V = RabbitStepView;

    open spec fn view(&self) -> RabbitStepView {
        match self {
            RabbitStep::AwaitDelivery => RabbitStepView::AwaitDelivery,
            RabbitStep::Handle(body) => RabbitStepView::Handle(body@),
            RabbitStep::Settle(s) => RabbitStepView::Settle(*s),
            RabbitStep::Stopped(r) => RabbitStepView::Stopped(queue_result_view(*r)),
        }
    }
}

/// What the call of a RabbitMQ listener's step answered.
pub enum RabbitEvent {
    /// The consumer stream's next item: its end (`None`), a failure with its
    /// text, or a delivery's bytes.
    Delivery(Option<Result<Vec<u8>, String>>),
    /// The handler's result.
    Handled(Result<(), HandlerError>),
    /// The acknowledgement or rejection went through, or failed with a text.
    Settled(Result<(), String>),
    /// The listener was asked to stop.
    Cancelled,
}

pub enum RabbitEventView {
    Delivery(Option<Result<Seq<u8>, Seq<char>>>),
    Handled(Result<(), HandlerErrorView>),
    Settled(Result<(), Seq<char>>),
    Cancelled,
}

impl View for RabbitEvent {
    type V = RabbitEventView;

    open spec fn view(&self) -> RabbitEventView {
        match self {
            RabbitEvent::Delivery(d) => RabbitEventView::Delivery(
                match d {
                    None => None,
                    Some(Ok(data)) => Some(Ok(data@)),
                    Some(Err(m)) => Some(Err(m@)),
                },
            ),
            RabbitEvent::Handled(r) => RabbitEventView::Handled(handler_result_view(*r)),
            RabbitEvent::Settled(r) => RabbitEventView::Settled(
                match r {
                    Ok(()) => Ok(()),
                    Err(m) => Err(m@),
                },
            ),
            RabbitEvent::Cancelled => RabbitEventView::Cancelled,
        }
    }
}

/// The step of a RabbitMQ listener after an answer. The stream's end, or a
/// request to stop while waiting, ends it with success; a stream failure or a
/// failed settlement ends it with that failure. A UTF-8 body goes to the
/// handler and any other is rejected without requeueing; a handled delivery
/// is acknowledged when the handler succeeded and rejected without
/// requeueing otherwise; after a settlement the next delivery is awaited. An
/// answer that belongs to another step leaves the step as it is.
pub open spec fn rabbit_next(s: RabbitStepView, e: RabbitEventView) -> RabbitStepView {
    match (s, e) {
        (RabbitStepView::AwaitDelivery, RabbitEventView::Cancelled) => RabbitStepView::Stopped(Ok(())),
        (RabbitStepView::AwaitDelivery, RabbitEventView::Delivery(d)) => match d {
            None => RabbitStepView::Stopped(Ok(())),
            Some(Err(m)) => RabbitStepView::Stopped(Err(QueueErrorView::Unknown(m))),
            Some(Ok(data)) => if valid_utf8(data) {
                RabbitStepView::Handle(decode_utf8(data))
            } else {
                RabbitStepView::Settle(Settlement::Reject { requeue: false })
            },
        },
        (RabbitStepView::Handle(_), RabbitEventView::Handled(r)) => if r is Ok {
            RabbitStepView::Settle(Settlement::Ack)
        } else {
            RabbitStepView::Settle(Settlement::Reject { requeue: false })
        },
        (RabbitStepView::Settle(_), RabbitEventView::Settled(r)) => match r {
            Ok(()) => RabbitStepView::AwaitDelivery,
            Err(m) => RabbitStepView::Stopped(Err(QueueErrorView::Unknown(m))),
        },
        _ => s,
    }
}

/// The first step of a RabbitMQ listener: wait for a delivery.
pub fn rabbit_start() -> (step: RabbitStep)
    ensures
        step@ == RabbitStepView::AwaitDelivery,
{
    RabbitStep::AwaitDelivery
}

/// The next step of a RabbitMQ listener, once its current step's call has
/// answered.
pub fn rabbit_resume(step: RabbitStep, event: RabbitEvent) -> (next: RabbitStep)
    ensures
        next@ == rabbit_next(step@, event@),
{
    match (step, event) {
        (RabbitStep::AwaitDelivery, RabbitEvent::Cancelled) => RabbitStep::Stopped(Ok(())),
        (RabbitStep::AwaitDelivery, RabbitEvent::Delivery(d)) => match d {
            None => RabbitStep::Stopped(Ok(())),
            Some(Err(m)) => RabbitStep::Stopped(Err(QueueError::Unknown(m))),
            Some(Ok(data)) => match plan_delivery(data.as_slice()) {
                DeliveryPlan::Handle(body) => RabbitStep::Handle(body),
                DeliveryPlan::Settle(s) => RabbitStep::Settle(s),
            },
        },
        (RabbitStep::Handle(_), RabbitEvent::Handled(r)) => RabbitStep::Settle(settle_delivery(&r)),
        (RabbitStep::Settle(_), RabbitEvent::Settled(r)) => match r {
            Ok(()) => RabbitStep::AwaitDelivery,
            Err(m) => RabbitStep::Stopped(Err(QueueError::Unknown(m))),
        },
        (s, _) => s,
    }
}

/// A delivery is acknowledged only right after its handler succeeded, and a
/// stopped listener stays stopped, whatever comes after.
pub proof fn lemma_rabbit_acks_only_handled(s: RabbitStepView, e: RabbitEventView)
    ensures
        rabbit_next(s, e) == RabbitStepView::Settle(Settlement::Ack) ==> s == RabbitStepView::Settle(
            Settlement::Ack,
        ) || (s is Handle && e matches RabbitEventView::Handled(Ok(()))),
        s is Stopped ==> rabbit_next(s, e) == s,
{
}

/// How a RabbitMQ listener answers each event: the stream's end or a stop
/// request while waiting ends it successfully and a stream failure ends it
/// with that failure; a UTF-8 body is handed to the handler unchanged and any
/// other body is rejected without requeueing; a successful handler gets its
/// delivery acknowledged, a failed one gets it rejected without requeueing;
/// a settlement that went through leads to waiting for the next delivery,
/// and a failed one ends the listener with that failure.
pub proof fn lemma_rabbit_listener_rules(data: Seq<u8>, body: Seq<char>, s: Settlement, m: Seq<char>, e: HandlerErrorView)
    ensures
        rabbit_next(RabbitStepView::AwaitDelivery, RabbitEventView::Delivery(None)) == RabbitStepView::Stopped(Ok(())),
        rabbit_next(RabbitStepView::AwaitDelivery, RabbitEventView::Cancelled) == RabbitStepView::Stopped(Ok(())),
        rabbit_next(RabbitStepView::AwaitDelivery, RabbitEventView::Delivery(Some(Err(m))))
            == RabbitStepView::Stopped(Err(QueueErrorView::Unknown(m))),
        valid_utf8(data) ==> rabbit_next(RabbitStepView::AwaitDelivery, RabbitEventView::Delivery(Some(Ok(data))))
            == RabbitStepView::Handle(decode_utf8(data)),
        !valid_utf8(data) ==> rabbit_next(RabbitStepView::AwaitDelivery, RabbitEventView::Delivery(Some(Ok(data))))
            == RabbitStepView::Settle(Settlement::Reject { requeue: false }),
        rabbit_next(RabbitStepView::Handle(body), RabbitEventView::Handled(Ok(()))) == RabbitStepView::Settle(Settlement::Ack),
        rabbit_next(RabbitStepView::Handle(body), RabbitEventView::Handled(Err(e))) == RabbitStepView::Settle(
            Settlement::Reject { requeue: false },
        ),
        rabbit_next(RabbitStepView::Settle(s), RabbitEventView::Settled(Ok(()))) == RabbitStepView::AwaitDelivery,
        rabbit_next(RabbitStepView::Settle(s), RabbitEventView::Settled(Err(m))) == RabbitStepView::Stopped(
            Err(QueueErrorView::Unknown(m)),
        ),
{
}

/// A received SQS message: its body and receipt handle, when present.
pub struct SqsMessage {
    pub body: Option<String>,
    pub receipt: Option<String>,
}

pub struct SqsMessageView {
    pub body: Option<Seq<char>>,
    pub receipt: Option<Seq<char>>,
}

/// The text of an optional text.
pub open spec fn opt_view(o: Option<String>) -> Option<Seq<char>> {
    match o {
        None => None,
        Some(s) => Some(s@),
    }
}

impl View for SqsMessage {
    type V = SqsMessageView;

    open spec fn view(&self) -> SqsMessageView {
        SqsMessageView { body: opt_view(self.body), receipt: opt_view(self.receipt) }
    }
}

/// The views of a batch of received messages.
pub open spec fn batch_view(batch: Seq<SqsMessage>) -> Seq<SqsMessageView> {
    batch.map_values(|m: SqsMessage| m@)
}

/// Where an SQS listener stands.
pub enum SqsStep {
    /// Ask the queue for a batch of messages.
    Receive,
    /// Hand message `index` of the batch, with this body, to the handler.
    Handle { batch: Vec<SqsMessage>, index: usize, body: String, receipt: String },
    /// Delete message `index` of the batch by its receipt handle.
    Delete { batch: Vec<SqsMessage>, index: usize, receipt: String },
    /// The listener has ended, with this result.
    Stopped(Result<(), QueueError>),
}

pub enum SqsStepView {
    Receive,
    Handle { batch: Seq<SqsMessageView>, index: int, body: Seq<char>, receipt: Seq<char> },
    Delete { batch: Seq<SqsMessageView>, index: int, receipt: Seq<char> },
    Stopped(Result<(), QueueErrorView>),
}

impl View for SqsStep {
    type V = SqsStepView;

    open spec fn view(&self) -> SqsStepView {
        match self {
            SqsStep::Receive => SqsStepView::Receive,
            SqsStep::Handle { batch, index, body, receipt } => SqsStepView::Handle {
                batch: batch_view(batch@),
                index: *index as int,
                body: body@,
                receipt: receipt@,
            },
            SqsStep::Delete { batch, index, receipt } => SqsStepView::Delete {
                batch: batch_view(batch@),
                index: *index as int,
                receipt: receipt@,
            },
            SqsStep::Stopped(r) => SqsStepView::Stopped(queue_result_view(*r)),
        }
    }
}

/// What the call of an SQS listener's step answered.
pub enum SqsEvent {
    /// The batch of messages received, or the failure's text.
    Received(Result<Vec<SqsMessage>, String>),
    /// The handler's result.
    Handled(Result<(), HandlerError>),
    /// The deletion went through, or failed with a text.
    Deleted(Result<(), String>),
    /// The listener was asked to stop.
    Cancelled,
}

pub enum SqsEventView {
    Received(Result<Seq<SqsMessageView>, Seq<char>>),
    Handled(Result<(), HandlerErrorView>),
    Deleted(Result<(), Seq<char>>),
    Cancelled,
}

impl View for SqsEvent {
    type V = SqsEventView;

    open spec fn view(&self) -> SqsEventView {
        match self {
            SqsEvent::Received(r) => SqsEventView::Received(
                match r {
                    Ok(batch) => Ok(batch_view(batch@)),
                    Err(m) => Err(m@),
                },
            ),
            SqsEvent::Handled(r) => SqsEventView::Handled(handler_result_view(*r)),
            SqsEvent::Deleted(r) => SqsEventView::Deleted(
                match r {
                    Ok(()) => Ok(()),
                    Err(m) => Err(m@),
                },
            ),
            SqsEvent::Cancelled => SqsEventView::Cancelled,
        }
    }
}

/// Whether a message is handled: it has both a body and a receipt handle.
pub open spec fn is_handled_message(m: SqsMessageView) -> bool {
    m.body is Some && m.receipt is Some
}

/// The step for the batch from message `from` on: the first message that has
/// a body and a receipt handle is handled; when none is left, the next batch
/// is received.
pub open spec fn next_in_batch(batch: Seq<SqsMessageView>, from: int) -> SqsStepView
    decreases batch.len() - from,
{
    if from >= batch.len() {
        SqsStepView::Receive
    } else if is_handled_message(batch[from]) {
        SqsStepView::Handle {
            batch,
            index: from,
            body: batch[from].body->0,
            receipt: batch[from].receipt->0,
        }
    } else {
        next_in_batch(batch, from + 1)
    }
}

/// The step of an SQS listener after an answer. A request to stop while
/// receiving ends it with success; a failed receive or a failed deletion ends
/// it with that failure. The messages of a batch are handled in order,
/// passing over those without a body or a receipt handle; a message is
/// deleted when its handler succeeded and left in the queue otherwise; after
/// the batch the next one is received. An answer that belongs to another
/// step leaves the step as it is.
pub open spec fn sqs_next(s: SqsStepView, e: SqsEventView) -> SqsStepView {
    match (s, e) {
        (SqsStepView::Receive, SqsEventView::Cancelled) => SqsStepView::Stopped(Ok(())),
        (SqsStepView::Receive, SqsEventView::Received(r)) => match r {
            Err(m) => SqsStepView::Stopped(Err(QueueErrorView::Unknown(m))),
            Ok(batch) => next_in_batch(batch, 0),
        },
        (SqsStepView::Handle { batch, index, body, receipt }, SqsEventView::Handled(r)) => if r is Ok {
            SqsStepView::Delete { batch, index, receipt }
        } else {
            next_in_batch(batch, index + 1)
        },
        (SqsStepView::Delete { batch, index, receipt }, SqsEventView::Deleted(r)) => match r {
            Ok(()) => next_in_batch(batch, index + 1),
            Err(m) => SqsStepView::Stopped(Err(QueueErrorView::Unknown(m))),
        },
        _ => s,
    }
}

/// Whether a step is well formed: the message it works on is one of its
/// batch.
pub open spec fn sqs_step_wf(s: SqsStepView) -> bool {
    match s {
        SqsStepView::Handle { batch, index, .. } => 0 <= index < batch.len(),
        SqsStepView::Delete { batch, index, .. } => 0 <= index < batch.len(),
        _ => true,
    }
}

/// The first step of an SQS listener: receive a batch.
pub fn sqs_start() -> (step: SqsStep)
    ensures
        step@ == SqsStepView::Receive,
{
    SqsStep::Receive
}

proof fn lemma_next_in_batch_wf(batch: Seq<SqsMessageView>, from: int)
    requires
        0 <= from,
    ensures
        sqs_step_wf(next_in_batch(batch, from)),
    decreases batch.len() - from,
{
    if from < batch.len() && !is_handled_message(batch[from]) {
        lemma_next_in_batch_wf(batch, from + 1);
    }
}

/// The step for `batch` from message `from` on.
fn first_to_handle(batch: Vec<SqsMessage>, from: usize) -> (step: SqsStep)
    requires
        from <= batch@.len(),
    ensures
        step@ == next_in_batch(batch_view(batch@), from as int),
{
    let ghost bv = batch_view(batch@);
    let mut i: usize = from;
    while i < batch.len()
        invariant
            from <= i <= batch@.len(),
            bv == batch_view(batch@),
            next_in_batch(bv, from as int) == next_in_batch(bv, i as int),
        decreases batch@.len() - i,
    {
        let body = match &batch[i].body {
            Some(b) => Some(b.clone()),
            None => None,
        };
        let receipt = match &batch[i].receipt {
            Some(r) => Some(r.clone()),
            None => None,
        };
        match plan_message(body, receipt) {
            SqsPlan::Handle { body, receipt } => {
                return SqsStep::Handle { batch, index: i, body, receipt };
            },
            SqsPlan::Skip => {},
        }
        i = i + 1;
    }
    SqsStep::Receive
}

/// The next step of an SQS listener, once its current step's call has
/// answered.
pub fn sqs_resume(step: SqsStep, event: SqsEvent) -> (next: SqsStep)
    requires
        sqs_step_wf(step@),
    ensures
        next@ == sqs_next(step@, event@),
        sqs_step_wf(next@),
{
    proof {
        match step@ {
            SqsStepView::Handle { batch, index, .. } => lemma_next_in_batch_wf(batch, index + 1),
            SqsStepView::Delete { batch, index, .. } => lemma_next_in_batch_wf(batch, index + 1),
            _ => {},
        }
        match event@ {
            SqsEventView::Received(Ok(batch)) => lemma_next_in_batch_wf(batch, 0),
            _ => {},
        }
    }
    match (step, event) {
        (SqsStep::Receive, SqsEvent::Cancelled) => SqsStep::Stopped(Ok(())),
        (SqsStep::Receive, SqsEvent::Received(r)) => match r {
            Err(m) => SqsStep::Stopped(Err(QueueError::Unknown(m))),
            Ok(batch) => first_to_handle(batch, 0),
        },
        (SqsStep::Handle { batch, index, body, receipt }, SqsEvent::Handled(r)) => if deletes_message(&r) {
            SqsStep::Delete { batch, index, receipt }
        } else {
            assert(batch_view(batch@).len() == batch@.len());
            let batch_len: usize = batch.len();
            assert(index < batch_len);
            first_to_handle(batch, index + 1)
        },
        (SqsStep::Delete { batch, index, receipt }, SqsEvent::Deleted(r)) => match r {
            Ok(()) => {
                assert(batch_view(batch@).len() == batch@.len());
                let batch_len: usize = batch.len();
                assert(index < batch_len);
                first_to_handle(batch, index + 1)
            },
            Err(m) => SqsStep::Stopped(Err(QueueError::Unknown(m))),
        },
        (s, _) => s,
    }
}

/// A message is deleted only right after its own handler succeeded, and a
/// stopped listener stays stopped, whatever comes after.
pub proof fn lemma_sqs_deletes_only_handled(s: SqsStepView, e: SqsEventView)
    requires
        sqs_step_wf(s),
    ensures
        sqs_next(s, e) matches SqsStepView::Delete { batch, index, receipt } ==> s == sqs_next(s, e) || (
        s matches SqsStepView::Handle { batch: b, index: i, receipt: r, .. } && b == batch && i == index
            && r == receipt && e matches SqsEventView::Handled(Ok(()))),
        s is Stopped ==> sqs_next(s, e) == s,
{
    match (s, e) {
        (SqsStepView::Receive, SqsEventView::Received(Ok(batch))) => lemma_next_is_not_delete(batch, 0),
        (SqsStepView::Handle { batch, index, .. }, SqsEventView::Handled(Err(_))) => lemma_next_is_not_delete(batch, index + 1),
        (SqsStepView::Delete { batch, index, .. }, SqsEventView::Deleted(Ok(()))) => lemma_next_is_not_delete(batch, index + 1),
        _ => {},
    }
}

/// Where a batch goes on from message `from`: to the first message from
/// there on that has both a body and a receipt handle, with that body and
/// receipt, passing over only messages that lack one of them; and to the next
/// receive only when no such message is left.
pub proof fn lemma_next_in_batch_is_first_handled(batch: Seq<SqsMessageView>, from: int)
    requires
        0 <= from,
    ensures
        next_in_batch(batch, from) is Handle || next_in_batch(batch, from) is Receive,
        next_in_batch(batch, from) matches SqsStepView::Handle { batch: b, index, body, receipt } ==> {
            &&& b == batch
            &&& from <= index < batch.len()
            &&& batch[index].body == Some(body)
            &&& batch[index].receipt == Some(receipt)
            &&& forall|k: int| from <= k < index ==> !(batch[k].body is Some && batch[k].receipt is Some)
        },
        next_in_batch(batch, from) is Receive <==> forall|k: int|
            from <= k < batch.len() ==> !(batch[k].body is Some && batch[k].receipt is Some),
    decreases batch.len() - from,
{
    if from < batch.len() && !is_handled_message(batch[from]) {
        lemma_next_in_batch_is_first_handled(batch, from + 1);
        if next_in_batch(batch, from) is Receive {
            assert forall|k: int| from <= k < batch.len() implies !(batch[k].body is Some
                && batch[k].receipt is Some) by {
                if k > from {
                }
            }
        }
        if forall|k: int| from <= k < batch.len() ==> !(batch[k].body is Some && batch[k].receipt is Some) {
            assert forall|k: int| from + 1 <= k < batch.len() implies !(batch[k].body is Some
                && batch[k].receipt is Some) by {
            }
        }
    } else if from < batch.len() {
        assert(!(forall|k: int| from <= k < batch.len() ==> !(batch[k].body is Some && batch[k].receipt is Some)));
    }
}

/// How an SQS listener answers the events that do not concern one message:
/// a stop request while receiving ends it successfully; a failed receive or
/// a failed deletion ends it with that failure; a received batch is taken
/// from its first message on; a successful deletion goes on with the rest of
/// the batch.
pub proof fn lemma_sqs_listener_rules(
    batch: Seq<SqsMessageView>,
    index: int,
    receipt: Seq<char>,
    m: Seq<char>,
)
    ensures
        sqs_next(SqsStepView::Receive, SqsEventView::Cancelled) == SqsStepView::Stopped(Ok(())),
        sqs_next(SqsStepView::Receive, SqsEventView::Received(Err(m))) == SqsStepView::Stopped(
            Err(QueueErrorView::Unknown(m)),
        ),
        sqs_next(SqsStepView::Receive, SqsEventView::Received(Ok(batch))) == next_in_batch(batch, 0),
        sqs_next(SqsStepView::Delete { batch, index, receipt }, SqsEventView::Deleted(Ok(()))) == next_in_batch(
            batch,
            index + 1,
        ),
        sqs_next(SqsStepView::Delete { batch, index, receipt }, SqsEventView::Deleted(Err(m)))
            == SqsStepView::Stopped(Err(QueueErrorView::Unknown(m))),
{
}

/// A message whose handler failed is left in the queue, and the batch goes
/// on: the next message of the batch that has a body and a receipt handle is
/// handled, exactly as after a successful deletion; a new batch is received
/// only once none is left.
pub proof fn lemma_failed_message_keeps_the_batch_going(
    batch: Seq<SqsMessageView>,
    index: int,
    body: Seq<char>,
    receipt: Seq<char>,
    err: HandlerErrorView,
)
    requires
        0 <= index < batch.len(),
    ensures
        sqs_next(SqsStepView::Handle { batch, index, body, receipt }, SqsEventView::Handled(Err(err)))
            == next_in_batch(batch, index + 1),
        sqs_next(SqsStepView::Handle { batch, index, body, receipt }, SqsEventView::Handled(Err(err)))
            == sqs_next(SqsStepView::Delete { batch, index, receipt }, SqsEventView::Deleted(Ok(()))),
        index + 1 < batch.len() && batch[index + 1].body is Some && batch[index + 1].receipt is Some
            ==> sqs_next(SqsStepView::Handle { batch, index, body, receipt }, SqsEventView::Handled(Err(err)))
            == (SqsStepView::Handle {
            batch,
            index: index + 1,
            body: batch[index + 1].body->0,
            receipt: batch[index + 1].receipt->0,
        }),
{
    lemma_next_in_batch_is_first_handled(batch, index + 1);
}

proof fn lemma_next_is_not_delete(batch: Seq<SqsMessageView>, from: int)
    ensures
        !(next_in_batch(batch, from) is Delete),
    decreases batch.len() - from,
{
    if from < batch.len() && !is_handled_message(batch[from]) {
        lemma_next_is_not_delete(batch, from + 1);
    }
}

} // verus!
