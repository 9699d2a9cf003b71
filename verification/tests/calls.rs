use bytes::Bytes;
use rocketmq_remoting::base::pending_responses::PendingResponses;
use rocketmq_remoting::connection::Connection;
use rocketmq_remoting::error::{NetworkError, RocketMQError, RocketMQResult};
use rocketmq_remoting::metrics::{snapshot, TransportCounters};
use rocketmq_remoting::net::call::{start_call, CallStyle, PendingCall, ResponseEvent};
use rocketmq_remoting::net::channel_inner::{ChannelInner, ChannelMessage, EnqueueEvent};
use rocketmq_remoting::protocol::RemotingCommand;
use tokio::sync::oneshot;

fn channel() -> ChannelInner {
    ChannelInner::new(Connection::new("c".to_string()))
}

fn command(opaque: i32) -> RemotingCommand {
    RemotingCommand { code: 1, opaque, oneway: false, body: Bytes::new() }
}

fn start(
    style: CallStyle,
    opaque: i32,
    table: &mut PendingResponses,
    metrics: &mut TransportCounters,
) -> RocketMQResult<PendingCall> {
    let (tx, rx) = oneshot::channel();
    start_call(style, &channel(), command(opaque), 40, 2, tx, rx, table, metrics)
        .map(|started| started.call)
}

#[test]
fn started_call_is_registered_and_queued() {
    let mut metrics = TransportCounters::new();
    let mut table = PendingResponses::with_capacity(1);
    let started = channel().send_wait_response(command(8), 40, 2, &mut table, &mut metrics);
    let mut started = started.unwrap();
    assert_eq!(started.call.deadline(), 40_000_002);
    assert_eq!(started.enqueue.wait.deadline, Some(40_000_002));
    assert_eq!(started.enqueue.wait.timeout_millis, Some(40));
    match started.enqueue.message {
        ChannelMessage::Command(command, Some(request), Some(40_000_002)) => {
            assert_eq!(command.opaque, 8);
            assert!(request.is_registered(&table));
            assert_eq!(request.timeout_millis(), 40);
        }
        _ => panic!("not the command of the call"),
    }
    let waiter = table.take("c", 8, &mut metrics).unwrap();
    assert!(waiter.complete(Ok(command(8))).deliver().is_ok());
    let response = started.call.receiver().try_recv().unwrap();
    let outcome =
        started.call.finish(ResponseEvent::Completed(response), &mut table, &mut metrics);
    assert_eq!(outcome.result.unwrap().opaque, 8);
    assert!(outcome.timed_out.is_none());
    assert_eq!(snapshot(&metrics).pending_responses, 0);
}

#[test]
fn responses_find_their_own_callers() {
    let mut metrics = TransportCounters::new();
    let mut table = PendingResponses::with_capacity(1);
    let channel = channel();
    let mut calls = Vec::new();
    for opaque in [1, 2, 3] {
        let started =
            channel.send_wait_response(command(opaque), 40, 2, &mut table, &mut metrics);
        calls.push((opaque, started.unwrap().call));
    }
    for opaque in [3, 1, 2] {
        let waiter = table.take("c", opaque, &mut metrics).unwrap();
        assert!(waiter.complete(Ok(command(opaque))).deliver().is_ok());
    }
    for (opaque, mut call) in calls {
        let event = ResponseEvent::Completed(call.receiver().try_recv().unwrap());
        let outcome = call.finish(event, &mut table, &mut metrics);
        assert_eq!(outcome.result.unwrap().opaque, opaque);
    }
}

#[test]
fn ended_call_leaves_a_later_call_with_its_number_alone() {
    let mut metrics = TransportCounters::new();
    let mut table = PendingResponses::with_capacity(1);
    let first = start(CallStyle::SendRead, 8, &mut table, &mut metrics).map_err(|_| ()).unwrap();
    drop(table.take("c", 8, &mut metrics));
    let later = start(CallStyle::SendRead, 8, &mut table, &mut metrics).map_err(|_| ()).unwrap();
    let outcome = first.finish(ResponseEvent::DeadlineExpired, &mut table, &mut metrics);
    assert!(outcome.timed_out.is_none());
    assert_eq!(table.len(), 1);
    later.abandon(&mut table, &mut metrics);
    assert!(table.is_empty());
}

#[test]
fn duplicate_calls_are_refused_in_the_style_of_the_operation() {
    let mut metrics = TransportCounters::new();
    let mut table = PendingResponses::with_capacity(1);
    let first = start(CallStyle::SendRead, 8, &mut table, &mut metrics).map_err(|_| ()).unwrap();
    assert!(matches!(
        start(CallStyle::WaitResponse, 8, &mut table, &mut metrics),
        Err(RocketMQError::Network(NetworkError::ConnectionFailed { addr, reason }))
            if addr == "channel" && reason == "duplicate pending request"
    ));
    for style in [CallStyle::SendRead, CallStyle::SendBatchRead] {
        assert!(matches!(
            start(style, 8, &mut table, &mut metrics),
            Err(RocketMQError::Remote(text)) if text == "duplicate pending request"
        ));
    }
    assert_eq!(table.len(), 1);
    first.abandon(&mut table, &mut metrics);
    assert!(table.is_empty());
}

#[test]
fn call_on_a_closed_channel_leaves_nothing_pending() {
    let mut metrics = TransportCounters::new();
    let mut table = PendingResponses::with_capacity(1);
    let mut channel = channel();
    let _ = channel.shutdown(&mut table, &mut metrics);
    let started = channel.send_wait_response(command(8), 40, 2, &mut table, &mut metrics);
    assert!(matches!(
        started,
        Err(RocketMQError::Network(NetworkError::ConnectionFailed { addr, reason }))
            if addr == "channel" && reason == "connection closed"
    ));
    assert!(table.is_empty());
    assert_eq!(snapshot(&metrics).pending_responses, 0);
}

#[test]
fn call_that_is_not_queued_is_withdrawn() {
    let mut metrics = TransportCounters::new();
    let mut table = PendingResponses::with_capacity(1);
    let started =
        channel().send_wait_response(command(8), 40, 2, &mut table, &mut metrics);
    let started = started.unwrap();
    let error = started
        .call
        .enqueued(started.enqueue.wait, EnqueueEvent::DeadlineExpired, &mut table, &mut metrics)
        .err()
        .unwrap();
    assert!(matches!(
        error,
        RocketMQError::Timeout { operation: "send_queue", timeout_ms: 40 }
    ));
    assert!(table.is_empty());
}

#[test]
fn dropped_waiter_is_reported_in_the_style_of_the_operation() {
    let mut metrics = TransportCounters::new();
    let mut table = PendingResponses::with_capacity(1);
    let mut finish = |style| {
        let call = start(style, 8, &mut table, &mut metrics).map_err(|_| ()).unwrap();
        drop(table.take("c", 8, &mut metrics));
        let (tx, rx) = oneshot::channel::<()>();
        drop(tx);
        let closed = rx.blocking_recv().err().unwrap();
        let outcome = call.finish(ResponseEvent::Dropped(closed), &mut table, &mut metrics);
        assert!(outcome.timed_out.is_none());
        outcome.result.err().unwrap()
    };
    assert!(matches!(
        finish(CallStyle::WaitResponse),
        RocketMQError::Network(NetworkError::ConnectionFailed { addr, reason })
            if addr == "channel" && reason == "connection dropped: channel closed"
    ));
    assert!(matches!(
        finish(CallStyle::SendRead),
        RocketMQError::Remote(text) if text == "channel closed"
    ));
    assert!(matches!(
        finish(CallStyle::SendBatchRead),
        RocketMQError::Remote(text) if text == "channel closed"
    ));
}

#[test]
fn timed_out_call_names_its_operation_and_gets_no_response() {
    let mut metrics = TransportCounters::new();
    let mut table = PendingResponses::with_capacity(1);
    for (style, name) in [
        (CallStyle::WaitResponse, "channel_recv"),
        (CallStyle::SendRead, "send_read"),
        (CallStyle::SendBatchRead, "send_batch_read"),
    ] {
        let call = start(style, 8, &mut table, &mut metrics).map_err(|_| ()).unwrap();
        let outcome = call.finish(ResponseEvent::DeadlineExpired, &mut table, &mut metrics);
        assert!(matches!(
            outcome.result,
            Err(RocketMQError::Timeout { operation, timeout_ms: 40 }) if operation == name
        ));
        assert!(matches!(
            outcome.timed_out.unwrap().outcome,
            Err(RocketMQError::Timeout { operation: "remoting", timeout_ms: 40 })
        ));
        assert!(table.take("c", 8, &mut metrics).is_none());
    }
}
