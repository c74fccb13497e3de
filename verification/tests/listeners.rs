use itx::error::{HandlerError, QueueError};
use itx::listener::{
    rabbit_resume, rabbit_start, sqs_resume, sqs_start, RabbitEvent, RabbitStep, SqsEvent, SqsMessage, SqsStep,
};
use itx::queue::Settlement;

fn msg(body: Option<&str>, receipt: Option<&str>) -> SqsMessage {
    SqsMessage { body: body.map(String::from), receipt: receipt.map(String::from) }
}

#[test]
fn rabbit_handles_acks_and_waits_again() {
    let step = rabbit_resume(rabbit_start(), RabbitEvent::Delivery(Some(Ok(b"hi".to_vec()))));
    assert!(matches!(&step, RabbitStep::Handle(b) if b == "hi"));
    let step = rabbit_resume(step, RabbitEvent::Handled(Ok(())));
    assert!(matches!(step, RabbitStep::Settle(Settlement::Ack)));
    let step = rabbit_resume(step, RabbitEvent::Settled(Ok(())));
    assert!(matches!(step, RabbitStep::AwaitDelivery));
}

#[test]
fn rabbit_rejects_failed_and_non_utf8_deliveries() {
    let step = rabbit_resume(rabbit_start(), RabbitEvent::Delivery(Some(Ok(vec![0xff, 0xfe]))));
    assert!(matches!(step, RabbitStep::Settle(Settlement::Reject { requeue: false })));
    let step = rabbit_resume(RabbitStep::Handle("x".into()), RabbitEvent::Handled(Err(HandlerError::Decode("bad".into()))));
    assert!(matches!(step, RabbitStep::Settle(Settlement::Reject { requeue: false })));
}

#[test]
fn rabbit_stops_on_stream_end_cancel_and_failures() {
    assert!(matches!(rabbit_resume(rabbit_start(), RabbitEvent::Delivery(None)), RabbitStep::Stopped(Ok(()))));
    assert!(matches!(rabbit_resume(rabbit_start(), RabbitEvent::Cancelled), RabbitStep::Stopped(Ok(()))));
    let step = rabbit_resume(rabbit_start(), RabbitEvent::Delivery(Some(Err("gone".into()))));
    assert!(matches!(step, RabbitStep::Stopped(Err(QueueError::Unknown(m))) if m == "gone"));
    let step = rabbit_resume(RabbitStep::Settle(Settlement::Ack), RabbitEvent::Settled(Err("nack".into())));
    assert!(matches!(&step, RabbitStep::Stopped(Err(QueueError::Unknown(m))) if m == "nack"));
    let step = rabbit_resume(step, RabbitEvent::Delivery(None));
    assert!(matches!(step, RabbitStep::Stopped(Err(_))));
}

#[test]
fn sqs_handles_batch_in_order_skipping_incomplete_messages() {
    let batch = vec![msg(None, Some("r0")), msg(Some("a"), Some("r1")), msg(Some("b"), None), msg(Some("c"), Some("r3"))];
    let step = sqs_resume(sqs_start(), SqsEvent::Received(Ok(batch)));
    assert!(matches!(&step, SqsStep::Handle { index: 1, body, receipt, .. } if body == "a" && receipt == "r1"));
    let step = sqs_resume(step, SqsEvent::Handled(Ok(())));
    assert!(matches!(&step, SqsStep::Delete { index: 1, receipt, .. } if receipt == "r1"));
    let step = sqs_resume(step, SqsEvent::Deleted(Ok(())));
    assert!(matches!(&step, SqsStep::Handle { index: 3, body, .. } if body == "c"));
    let step = sqs_resume(step, SqsEvent::Handled(Err(HandlerError::Decode("x".into()))));
    assert!(matches!(step, SqsStep::Receive));
}

#[test]
fn sqs_stops_on_cancel_and_failures() {
    assert!(matches!(sqs_resume(sqs_start(), SqsEvent::Cancelled), SqsStep::Stopped(Ok(()))));
    let step = sqs_resume(sqs_start(), SqsEvent::Received(Err("down".into())));
    assert!(matches!(step, SqsStep::Stopped(Err(QueueError::Unknown(m))) if m == "down"));
    let step = sqs_resume(sqs_start(), SqsEvent::Received(Ok(vec![msg(Some("a"), Some("r"))])));
    let step = sqs_resume(step, SqsEvent::Handled(Ok(())));
    let step = sqs_resume(step, SqsEvent::Deleted(Err("denied".into())));
    assert!(matches!(step, SqsStep::Stopped(Err(QueueError::Unknown(m))) if m == "denied"));
    assert!(matches!(sqs_resume(sqs_start(), SqsEvent::Received(Ok(vec![]))), SqsStep::Receive));
}
