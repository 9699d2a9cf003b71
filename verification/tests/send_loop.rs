use bytes::Bytes;
use rocketmq_remoting::base::pending_responses::PendingResponses;
use rocketmq_remoting::base::response_future::ResponseFuture;
use rocketmq_remoting::connection::{Connection, ConnectionState};
use rocketmq_remoting::error::{io_error, NetworkError, RocketMQError, RocketMQResult};
use rocketmq_remoting::metrics::TransportCounters;
use rocketmq_remoting::net::call::PendingCall;
use rocketmq_remoting::net::channel_inner::{ChannelInner, ChannelMessage};
use rocketmq_remoting::net::send_loop::{SendAction, SendEvent, SendLoop};
use rocketmq_remoting::protocol::RemotingCommand;
use tokio::sync::oneshot;

struct Fixture {
    metrics: TransportCounters,
    table: PendingResponses,
    channel: ChannelInner,
    task: SendLoop,
}

fn fixture() -> Fixture {
    Fixture {
        metrics: TransportCounters::new(),
        table: PendingResponses::with_capacity(1),
        channel: ChannelInner::new(Connection::new("c".to_string())),
        task: SendLoop::new(),
    }
}

fn command(opaque: i32) -> RemotingCommand {
    RemotingCommand { code: 1, opaque, oneway: false, body: Bytes::new() }
}

impl Fixture {
    /// The message of a call that was made at 0, and the call.
    fn call(&mut self, opaque: i32, timeout_millis: u64) -> (ChannelMessage, PendingCall) {
        let started = self.channel.send_wait_response(
            command(opaque),
            timeout_millis,
            0,
            &mut self.table,
            &mut self.metrics,
        );
        let started = started.unwrap();
        (started.enqueue.message, started.call)
    }

    /// Steps at `now`, delivers what is to be delivered, and gives the action
    /// and the number of waiters that were told.
    fn step(&mut self, event: SendEvent, now: u64) -> (SendAction, usize) {
        let step =
            self.task.step(event, now, &mut self.channel, &mut self.table, &mut self.metrics);
        let mut told = 0;
        for completion in step.withdrawn.into_iter().chain(step.failed) {
            if completion.deliver().is_ok() {
                told += 1;
            }
        }
        (step.action, told)
    }
}

fn reason(outcome: RocketMQResult<RemotingCommand>) -> String {
    match outcome {
        Err(RocketMQError::Network(NetworkError::ConnectionFailed { addr, reason })) => {
            assert_eq!(addr, "remoting");
            reason
        }
        _ => panic!("not a failed connection"),
    }
}

#[test]
fn send_deadline_retires_connection_and_stops_writer() {
    let mut f = fixture();
    let (message, mut call) = f.call(1, 20);
    let (action, _) = f.step(SendEvent::Message(message), 1);
    assert!(matches!(action, SendAction::WriteCommand(_, Some(20_000_000))));
    let (action, told) = f.step(SendEvent::DeadlineExpired, 20_000_000);
    assert!(matches!(action, SendAction::Retire));
    assert_eq!(told, 1);
    assert!(matches!(call.receiver().try_recv().unwrap(), Err(RocketMQError::Timeout { .. })));
    assert_eq!(f.channel.connection_ref().state(), ConnectionState::Closed);
    assert_eq!(f.table.len(), 0);
    assert!(f.channel.send(command(2), None, 0).is_err());
}

#[test]
fn send_deadline_fails_the_other_waiters_of_the_connection() {
    let mut f = fixture();
    let (message, _call) = f.call(1, 20);
    let (_, mut other) = f.call(2, 1000);
    let (tx, mut elsewhere) = oneshot::channel();
    let future = ResponseFuture::new(1, 5, true, tx);
    let kept = f.table.register("d", future, &mut f.metrics);
    assert!(kept.is_ok());
    f.step(SendEvent::Message(message), 1);
    let (_, told) = f.step(SendEvent::DeadlineExpired, 20_000_000);
    assert_eq!(told, 2);
    assert_eq!(reason(other.receiver().try_recv().unwrap()), "send deadline expired");
    assert!(elsewhere.try_recv().is_err());
    assert_eq!(f.table.len(), 1);
}

#[test]
fn messages_are_written_one_after_the_other() {
    let mut f = fixture();
    let bytes = Bytes::from_static(b"raw");
    let (action, _) = f.step(SendEvent::Message(ChannelMessage::Bytes(bytes)), 0);
    assert!(matches!(action, SendAction::WriteBytes(bytes) if bytes == "raw"));
    assert!(matches!(f.step(SendEvent::Written, 0).0, SendAction::Receive));

    let message = ChannelMessage::Command(command(4), None, None);
    let (action, _) = f.step(SendEvent::Message(message), u64::MAX);
    assert!(matches!(
        action,
        SendAction::WriteCommand(command, None) if command.opaque == 4
    ));
    assert!(matches!(f.step(SendEvent::Written, 0).0, SendAction::Receive));
    assert!(matches!(f.step(SendEvent::QueueClosed, 0).0, SendAction::Stop));
}

#[test]
fn live_messages_are_written_in_the_order_of_the_queue() {
    let mut f = fixture();
    let (first, _first_call) = f.call(3, 20);
    let (given_up, _given_up_call) = f.call(1, 20);
    drop(f.table.take("c", 1, &mut f.metrics));
    let late = ChannelMessage::Command(command(4), None, Some(5));
    let (last, _last_call) = f.call(2, 20);
    let queue = [first, given_up, ChannelMessage::Bytes(Bytes::from_static(b"raw")), late, last];
    let mut written = Vec::new();
    for message in queue {
        match f.step(SendEvent::Message(message), 6).0 {
            SendAction::Receive => continue,
            SendAction::WriteBytes(bytes) => written.push(format!("{} bytes", bytes.len())),
            SendAction::WriteCommand(command, _) => written.push(command.opaque.to_string()),
            _ => panic!("the task goes on"),
        }
        assert!(matches!(f.step(SendEvent::Written, 6).0, SendAction::Receive));
    }
    assert_eq!(written, ["3", "3 bytes", "2"]);
}

#[test]
fn commands_whose_callers_gave_up_are_skipped() {
    let mut f = fixture();
    let (message, _call) = f.call(1, 20);
    drop(f.table.take("c", 1, &mut f.metrics));
    let (action, told) = f.step(SendEvent::Message(message), 1);
    assert!(matches!(action, SendAction::Receive));
    assert_eq!(told, 0);
    assert!(f.channel.is_healthy());
}

#[test]
fn commands_whose_deadline_came_in_the_queue_time_out() {
    let mut f = fixture();
    let (message, mut call) = f.call(1, 20);
    let (action, told) = f.step(SendEvent::Message(message), 20_000_000);
    assert!(matches!(action, SendAction::Receive));
    assert_eq!(told, 1);
    assert!(matches!(
        call.receiver().try_recv().unwrap(),
        Err(RocketMQError::Timeout { operation: "remoting", timeout_ms: 20 })
    ));
    assert!(f.table.is_empty());
    assert!(f.channel.is_healthy());

    let message = ChannelMessage::Command(command(2), None, Some(5));
    let (action, told) = f.step(SendEvent::Message(message), 6);
    assert!(matches!(action, SendAction::Receive));
    assert_eq!(told, 0);
}

#[test]
fn stream_failure_while_writing_a_command_fails_the_connection() {
    let mut f = fixture();
    let (message, mut call) = f.call(1, 20);
    f.step(SendEvent::Message(message), 1);
    let (action, told) = f.step(SendEvent::WriteFailed(io_error("broken pipe")), 2);
    assert!(matches!(action, SendAction::Retire));
    assert_eq!(told, 1);
    assert_eq!(reason(call.receiver().try_recv().unwrap()), "broken pipe");
    assert_eq!(f.channel.connection_ref().state(), ConnectionState::Closed);
    assert!(f.table.is_empty());
}

#[test]
fn any_failure_while_writing_bytes_fails_the_connection() {
    let mut f = fixture();
    let (_, mut call) = f.call(1, 20);
    f.step(SendEvent::Message(ChannelMessage::Bytes(Bytes::new())), 1);
    let (action, told) = f.step(SendEvent::WriteFailed(io_error("broken pipe")), 2);
    assert!(matches!(action, SendAction::Retire));
    assert_eq!(told, 1);
    assert_eq!(reason(call.receiver().try_recv().unwrap()), "IO error: broken pipe");
    assert!(!f.channel.is_healthy());
}

#[test]
fn other_write_failures_concern_their_own_request() {
    let mut f = fixture();
    let (message, mut call) = f.call(1, 20);
    let (_, mut other) = f.call(2, 20);
    f.step(SendEvent::Message(message), 1);
    let error = RocketMQError::Other("header too large".to_string());
    let (action, told) = f.step(SendEvent::WriteFailed(error), 2);
    assert!(matches!(action, SendAction::Receive));
    assert_eq!(told, 1);
    assert_eq!(reason(call.receiver().try_recv().unwrap()), "header too large");
    assert!(other.receiver().try_recv().is_err());
    assert_eq!(f.table.len(), 1);
    assert!(f.channel.is_healthy());
}

#[test]
fn shutdown_stops_the_writer_wherever_it_is() {
    let mut f = fixture();
    assert!(matches!(f.step(SendEvent::Shutdown, 0).0, SendAction::Stop));

    let mut f = fixture();
    f.step(SendEvent::Message(ChannelMessage::Bytes(Bytes::new())), 0);
    assert!(matches!(f.step(SendEvent::Shutdown, 0).0, SendAction::Stop));

    let mut f = fixture();
    let (message, _call) = f.call(1, 20);
    f.step(SendEvent::Message(message), 1);
    assert!(matches!(f.step(SendEvent::Shutdown, 2).0, SendAction::Stop));
    assert_eq!(f.table.len(), 1);
}
