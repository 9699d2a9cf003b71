use bytes::Bytes;
use rocketmq_remoting::base::pending_responses::PendingResponses;
use rocketmq_remoting::base::response_future::ResponseFuture;
use rocketmq_remoting::connection::{Connection, ConnectionState};
use rocketmq_remoting::error::{NetworkError, RocketMQError, RocketMQResult};
use rocketmq_remoting::metrics::TransportCounters;
use rocketmq_remoting::net::call::ResponseEvent;
use rocketmq_remoting::net::channel_inner::{
    ChannelInner, ChannelMessage, EnqueueEvent, EnqueueWait, SendStyle, ShutdownAction,
    QUEUE_CAPACITY,
};
use rocketmq_remoting::protocol::RemotingCommand;
use tokio::sync::oneshot;

fn channel() -> ChannelInner {
    ChannelInner::new(Connection::new("connection-1".to_string()))
}

fn command(opaque: i32) -> RemotingCommand {
    RemotingCommand { code: 1, opaque, oneway: false, body: Bytes::new() }
}

fn reason(error: RocketMQError) -> String {
    match error {
        RocketMQError::Network(NetworkError::ConnectionFailed { addr, reason }) => {
            assert_eq!(addr, "channel");
            reason
        }
        _ => panic!("not a failed connection"),
    }
}

#[test]
fn timeout_and_close_leave_no_pending_response() {
    let mut metrics = TransportCounters::new();
    let mut table = PendingResponses::with_capacity(1);
    let mut channel = channel();

    let started = channel.send_wait_response(command(1), 10, 0, &mut table, &mut metrics);
    let started = started.unwrap();
    let call = started
        .call
        .enqueued(started.enqueue.wait, EnqueueEvent::Accepted, &mut table, &mut metrics)
        .map_err(|_| ())
        .unwrap();
    assert_eq!(table.len(), 1);
    let outcome = call.finish(ResponseEvent::DeadlineExpired, &mut table, &mut metrics);
    assert!(matches!(
        outcome.result,
        Err(RocketMQError::Timeout { operation: "channel_recv", timeout_ms: 10 })
    ));
    assert_eq!(table.len(), 0);

    let (tx, mut rx) = oneshot::channel::<RocketMQResult<RemotingCommand>>();
    let registration = table
        .register(
            channel.connection_ref().connection_id(),
            ResponseFuture::new(2, 1000, true, tx),
            &mut metrics,
        )
        .map_err(|_| "duplicate pending response")
        .unwrap();
    match channel.shutdown(&mut table, &mut metrics) {
        ShutdownAction::Close { failed } => {
            assert_eq!(failed.len(), 1);
            for completion in failed {
                assert!(completion.deliver().is_ok());
            }
        }
        ShutdownAction::AlreadyStarted => panic!("first shutdown"),
    }
    assert!(matches!(rx.try_recv().unwrap(), Err(RocketMQError::Network(_))));
    drop(registration.release(&mut table, &mut metrics));
    assert_eq!(table.len(), 0);
    assert_eq!(channel.connection_ref().state(), ConnectionState::Closed);
}

#[test]
fn only_the_first_shutdown_has_an_effect() {
    let mut metrics = TransportCounters::new();
    let mut table = PendingResponses::with_capacity(1);
    let mut channel = channel();
    assert!(matches!(
        channel.shutdown(&mut table, &mut metrics),
        ShutdownAction::Close { failed } if failed.is_empty()
    ));
    let (tx, _rx) = oneshot::channel();
    let late = table.register("connection-1", ResponseFuture::new(1, 5, true, tx), &mut metrics);
    assert!(late.is_ok());
    assert!(matches!(
        channel.shutdown(&mut table, &mut metrics),
        ShutdownAction::AlreadyStarted
    ));
    assert_eq!(table.len(), 1);
}

#[test]
fn open_channel_lets_messages_in_unchanged() {
    let channel = channel();
    assert!(channel.is_healthy());
    assert!(channel.is_ok());
    assert_eq!(channel.connection_mut().connection_id(), "connection-1");
    assert_eq!(QUEUE_CAPACITY, 1024);

    let enqueue = channel.send_bytes(Bytes::from_static(b"raw")).unwrap();
    assert!(matches!(enqueue.message, ChannelMessage::Bytes(bytes) if bytes == "raw"));
    assert_eq!(enqueue.wait.deadline, None);

    let enqueue = channel.send_command(command(3), Some(77), None).unwrap();
    assert!(matches!(
        enqueue.message,
        ChannelMessage::Command(command, None, Some(77)) if command.opaque == 3
    ));
    assert_eq!(enqueue.wait.deadline, Some(77));
    assert_eq!(enqueue.wait.timeout_millis, None);

    let enqueue = channel.send_oneway(command(4), 2, 5).unwrap();
    assert!(matches!(
        enqueue.message,
        ChannelMessage::Command(command, None, Some(2_000_005)) if command.oneway
    ));
    assert_eq!(enqueue.wait.deadline, Some(2_000_005));

    let enqueue = channel.send(command(5), Some(1), 9).unwrap();
    assert!(matches!(
        enqueue.message,
        ChannelMessage::Command(command, None, Some(1_000_009)) if !command.oneway
    ));
    let enqueue = channel.send(command(6), None, 9).unwrap();
    assert!(matches!(enqueue.message, ChannelMessage::Command(_, None, None)));
    assert_eq!(enqueue.wait.deadline, None);
}

#[test]
fn closed_or_degraded_channel_refuses_messages() {
    let mut metrics = TransportCounters::new();
    let mut table = PendingResponses::with_capacity(1);
    let mut degraded = channel();
    degraded.mark_degraded();
    assert!(!degraded.is_healthy());
    assert_eq!(degraded.connection_ref().state(), ConnectionState::Degraded);
    assert_eq!(
        reason(degraded.send_bytes(Bytes::new()).err().unwrap()),
        "connection closed"
    );

    let mut closed = channel();
    let _ = closed.shutdown(&mut table, &mut metrics);
    closed.mark_degraded();
    assert_eq!(closed.connection_ref().state(), ConnectionState::Closed);
    assert_eq!(
        reason(closed.send_command(command(1), None, None).err().unwrap()),
        "connection closed"
    );
    assert_eq!(
        reason(closed.send(command(1), None, 0).err().unwrap()),
        "send failed: Connection failed to channel: connection closed"
    );
    assert_eq!(
        reason(closed.send_oneway(command(1), 3, 0).err().unwrap()),
        "send oneway failed: Connection failed to channel: connection closed"
    );
}

#[test]
fn waiting_for_the_queue_ends_in_four_ways() {
    let wait = |timeout_millis| EnqueueWait {
        deadline: Some(1),
        timeout_millis,
        style: SendStyle::Plain,
    };
    assert!(wait(None).resolve(EnqueueEvent::Accepted).is_ok());
    assert_eq!(
        reason(wait(None).resolve(EnqueueEvent::Shutdown).err().unwrap()),
        "connection closed"
    );
    assert!(matches!(
        wait(Some(30)).resolve(EnqueueEvent::DeadlineExpired),
        Err(RocketMQError::Timeout { operation: "send_queue", timeout_ms: 30 })
    ));
    assert!(matches!(
        wait(None).resolve(EnqueueEvent::DeadlineExpired),
        Err(RocketMQError::Timeout { operation: "send_queue", timeout_ms: 0 })
    ));
    let (queue, reader) = flume::bounded(QUEUE_CAPACITY);
    drop(reader);
    let error = queue.send(ChannelMessage::Bytes(Bytes::new())).err().unwrap();
    assert_eq!(
        reason(wait(None).resolve(EnqueueEvent::Disconnected(error)).err().unwrap()),
        "send failed: sending on a closed channel"
    );
}

#[test]
fn queue_failures_are_reported_in_the_style_of_the_caller() {
    let resolve = |style| {
        EnqueueWait { deadline: None, timeout_millis: None, style }
            .resolve(EnqueueEvent::Shutdown)
            .err()
            .unwrap()
    };
    assert_eq!(
        reason(resolve(SendStyle::Oneway)),
        "send oneway failed: Connection failed to channel: connection closed"
    );
    assert_eq!(
        reason(resolve(SendStyle::Request)),
        "send failed: Connection failed to channel: connection closed"
    );
    assert!(matches!(
        resolve(SendStyle::Remote),
        RocketMQError::Remote(text) if text == "Connection failed to channel: connection closed"
    ));
}
