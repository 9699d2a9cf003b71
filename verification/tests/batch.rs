use bytes::Bytes;
use rocketmq_remoting::base::pending_responses::PendingResponses;
use rocketmq_remoting::clients::batch::BatchSendStep;
use rocketmq_remoting::clients::client::Client;
use rocketmq_remoting::connection::Connection;
use rocketmq_remoting::error::RocketMQError;
use rocketmq_remoting::metrics::{snapshot, TransportCounters};
use rocketmq_remoting::net::call::ResponseEvent;
use rocketmq_remoting::net::channel_inner::{ChannelInner, ChannelMessage, EnqueueEvent};
use rocketmq_remoting::protocol::RemotingCommand;
use tokio::sync::oneshot;

fn channel() -> ChannelInner {
    ChannelInner::new(Connection::new("c".to_string()))
}

fn command(opaque: i32) -> RemotingCommand {
    RemotingCommand { code: 1, opaque, oneway: false, body: Bytes::new() }
}

fn commands(opaques: &[i32]) -> Vec<RemotingCommand> {
    opaques.iter().map(|opaque| command(*opaque)).collect()
}

#[test]
fn batch_is_sent_in_order() {
    let channel = channel();
    let mut batch = Client::new(()).send_batch(commands(&[5, 3, 4]));
    for opaque in [5, 3, 4] {
        match batch.step(Ok(()), &channel) {
            BatchSendStep::Enqueue(enqueue) => {
                assert!(matches!(
                    enqueue.message,
                    ChannelMessage::Command(command, None, None) if command.opaque == opaque
                ));
                assert!(enqueue.wait.resolve(EnqueueEvent::Accepted).is_ok());
            }
            BatchSendStep::Done(_) => panic!("more to send"),
        }
    }
    assert!(matches!(batch.step(Ok(()), &channel), BatchSendStep::Done(Ok(()))));
}

#[test]
fn batch_ends_with_the_first_failure() {
    let channel = channel();
    let mut batch = Client::new(()).send_batch(commands(&[1, 2]));
    let result = match batch.step(Ok(()), &channel) {
        BatchSendStep::Enqueue(enqueue) => enqueue.wait.resolve(EnqueueEvent::Shutdown),
        BatchSendStep::Done(_) => panic!("more to send"),
    };
    assert!(matches!(
        batch.step(result, &channel),
        BatchSendStep::Done(Err(RocketMQError::Remote(text)))
            if text == "Connection failed to channel: connection closed"
    ));
    assert!(matches!(batch.step(Ok(()), &channel), BatchSendStep::Done(Ok(()))));
}

#[test]
fn batch_on_a_closed_channel_is_refused() {
    let mut metrics = TransportCounters::new();
    let mut table = PendingResponses::with_capacity(1);
    let mut channel = channel();
    let _ = channel.shutdown(&mut table, &mut metrics);
    let mut batch = Client::new(()).send_batch(commands(&[1, 2]));
    assert!(matches!(
        batch.step(Ok(()), &channel),
        BatchSendStep::Done(Err(RocketMQError::Remote(_)))
    ));
    let mut empty = Client::new(()).send_batch(Vec::new());
    assert!(matches!(empty.step(Ok(()), &channel), BatchSendStep::Done(Ok(()))));
}

#[test]
fn batch_results_come_in_the_order_of_the_requests() {
    let mut metrics = TransportCounters::new();
    let mut table = PendingResponses::with_capacity(1);
    let channel = channel();
    let mut batch = Client::new(()).send_batch_read(commands(&[5, 3, 4]), 30);
    let mut now = 0;
    while let Some(submitted) = batch.submit(&channel, now, &mut table, &mut metrics) {
        let enqueue = submitted.unwrap();
        assert_eq!(enqueue.wait.deadline, Some(30_000_000 + now as u128));
        assert!(batch
            .enqueued(enqueue.wait, EnqueueEvent::Accepted, &mut table, &mut metrics)
            .is_ok());
        now += 1;
    }
    assert_eq!(table.len(), 3);

    for opaque in [4, 5] {
        let waiter = table.take("c", opaque, &mut metrics).unwrap();
        assert!(waiter.complete(Ok(command(opaque))).deliver().is_ok());
    }
    while let Some(rx) = batch.next_receiver() {
        let event = match rx.try_recv() {
            Ok(outcome) => ResponseEvent::Completed(outcome),
            Err(_) => ResponseEvent::DeadlineExpired,
        };
        assert!(batch.next_deadline().is_some());
        drop(batch.respond(event, &mut table, &mut metrics));
    }
    assert_eq!(batch.next_deadline(), None);
    let results = batch.finish();
    assert_eq!(results.len(), 3);
    assert!(matches!(&results[0], Ok(command) if command.opaque == 5));
    assert!(matches!(
        &results[1],
        Err(RocketMQError::Timeout { operation: "send_batch_read", timeout_ms: 30 })
    ));
    assert!(matches!(&results[2], Ok(command) if command.opaque == 4));
    assert_eq!(snapshot(&metrics).pending_responses, 0);
}

#[test]
fn duplicate_request_gives_the_batch_up() {
    let mut metrics = TransportCounters::new();
    let mut table = PendingResponses::with_capacity(1);
    let channel = channel();
    let mut batch = Client::new(()).send_batch_read(commands(&[5, 3, 5, 6]), 30);
    for _ in 0..2 {
        let submitted = batch.submit(&channel, 0, &mut table, &mut metrics).unwrap();
        assert!(submitted.is_ok());
    }
    let submitted = batch.submit(&channel, 0, &mut table, &mut metrics).unwrap();
    assert!(matches!(
        submitted,
        Err(RocketMQError::Remote(text)) if text == "duplicate pending request"
    ));
    assert!(table.is_empty());
    assert!(batch.submit(&channel, 0, &mut table, &mut metrics).is_none());
    assert!(batch.finish().is_empty());
}

#[test]
fn full_queue_gives_the_batch_up() {
    let mut metrics = TransportCounters::new();
    let mut table = PendingResponses::with_capacity(1);
    let channel = channel();
    let mut batch = Client::new(()).send_batch_read(commands(&[1, 2]), 30);
    let (tx, rx) = oneshot::channel();
    let first = batch.submit_with(&channel, 0, tx, rx, &mut table, &mut metrics).unwrap();
    assert!(first.is_ok());
    let (tx, rx) = oneshot::channel();
    let second = batch.submit_with(&channel, 0, tx, rx, &mut table, &mut metrics).unwrap();
    let wait = second.map_err(|_| ()).unwrap().wait;
    assert_eq!(table.len(), 2);
    assert!(matches!(
        batch.enqueued(wait, EnqueueEvent::DeadlineExpired, &mut table, &mut metrics),
        Err(RocketMQError::Timeout { operation: "send_queue", timeout_ms: 30 })
    ));
    assert!(table.is_empty());
}

#[test]
fn abandoned_batch_leaves_other_requests_alone() {
    let mut metrics = TransportCounters::new();
    let mut table = PendingResponses::with_capacity(1);
    let channel = channel();
    let other =
        Client::new(()).send_read(&channel, command(9), 10, 0, &mut table, &mut metrics);
    assert!(other.is_ok());
    let mut batch = Client::new(()).send_batch_read(commands(&[1, 2]), 30);
    while let Some(submitted) = batch.submit(&channel, 0, &mut table, &mut metrics) {
        assert!(submitted.is_ok());
    }
    assert_eq!(table.len(), 3);
    batch.abandon(&mut table, &mut metrics);
    assert_eq!(table.len(), 1);
    assert!(table.take("c", 9, &mut metrics).is_some());
}
