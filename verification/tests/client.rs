use bytes::Bytes;
use rocketmq_remoting::base::pending_responses::PendingResponses;
use rocketmq_remoting::base::response_future::{Completion, ResponseFuture};
use rocketmq_remoting::clients::client::{
    Client, ClientInner, ConnectionNetEvent, ReceiveAction, ReceiveEvent, StreamEnds,
};
use rocketmq_remoting::connection::{Connection, ConnectionState};
use rocketmq_remoting::error::{io_error, NetworkError, RocketMQError};
use rocketmq_remoting::metrics::TransportCounters;
use rocketmq_remoting::net::address::SocketAddress;
use rocketmq_remoting::net::call::ResponseEvent;
use rocketmq_remoting::net::channel_inner::{
    ChannelInner, ChannelMessage, SendStyle, ShutdownAction,
};
use rocketmq_remoting::protocol::RemotingCommand;
use tokio::sync::oneshot;

fn channel() -> ChannelInner {
    ChannelInner::new(Connection::new("c".to_string()))
}

fn command(opaque: i32) -> RemotingCommand {
    RemotingCommand { code: 1, opaque, oneway: false, body: Bytes::new() }
}

fn address(port: u16) -> SocketAddress {
    SocketAddress::V4 { ipv4: 0x7f00_0001, port }
}

fn reason(completion: &Completion) -> String {
    match &completion.outcome {
        Err(RocketMQError::Network(NetworkError::ConnectionFailed { reason, .. })) => {
            reason.clone()
        }
        _ => panic!("not a failed connection"),
    }
}

#[test]
fn last_client_drop_releases_receive_task_and_pending_requests() {
    for _ in 0..16 {
        let mut metrics = TransportCounters::new();
        let mut table = PendingResponses::with_capacity(1);
        let mut channel = channel();
        let mut client = Client::new("receive task");
        let (tx, mut rx) = oneshot::channel();
        let _registration = table
            .register(
                channel.connection_ref().connection_id(),
                ResponseFuture::new(42, 1000, true, tx),
                &mut metrics,
            )
            .map_err(|_| ())
            .unwrap();
        let (shutdown, receive) = client.close(&mut channel, &mut table, &mut metrics);
        assert_eq!(receive, Some("receive task"));
        match shutdown {
            ShutdownAction::Close { failed } => {
                for completion in failed {
                    assert!(completion.deliver().is_ok());
                }
            }
            ShutdownAction::AlreadyStarted => panic!("first shutdown"),
        }
        assert!(rx.try_recv().unwrap().is_err());
        assert!(table.is_empty());

        let (shutdown, receive) = client.close(&mut channel, &mut table, &mut metrics);
        assert_eq!(receive, None);
        assert!(matches!(shutdown, ShutdownAction::AlreadyStarted));
    }
}

#[test]
fn received_commands_are_processed() {
    let mut metrics = TransportCounters::new();
    let mut table = PendingResponses::with_capacity(1);
    let mut channel = channel();
    let mut receiver = ClientInner::new();
    for opaque in [3, 1, 2] {
        let event = ReceiveEvent::Frame(command(opaque));
        let step = receiver.run_recv(event, &mut channel, &mut table, &mut metrics);
        assert!(matches!(
            step.action,
            ReceiveAction::Process(command) if command.opaque == opaque
        ));
        assert!(step.shutdown.is_none());
        assert!(step.failed.is_empty());
    }
    assert!(channel.is_healthy());
}

#[test]
fn failed_receive_shuts_the_channel_down() {
    let mut metrics = TransportCounters::new();
    let mut table = PendingResponses::with_capacity(1);
    let mut channel = channel();
    let mut receiver = ClientInner::new();
    let client = Client::new(());
    let started =
        client.send_read(&channel, command(1), 10, 0, &mut table, &mut metrics);
    assert!(started.is_ok());
    let event = ReceiveEvent::Failed(io_error("reset"));
    let step = receiver.run_recv(event, &mut channel, &mut table, &mut metrics);
    assert!(matches!(
        step.action,
        ReceiveAction::Return(Err(RocketMQError::IO(text))) if text == "reset"
    ));
    match step.shutdown {
        Some(ShutdownAction::Close { failed }) => {
            assert_eq!(failed.len(), 1);
            assert_eq!(reason(&failed[0]), "connection closed");
        }
        _ => panic!("the channel was open"),
    }
    assert!(step.failed.is_empty());
    assert!(table.is_empty());
    assert_eq!(channel.connection_ref().state(), ConnectionState::Closed);
}

#[test]
fn failed_receive_fails_what_an_earlier_shutdown_left() {
    let mut metrics = TransportCounters::new();
    let mut table = PendingResponses::with_capacity(1);
    let mut channel = channel();
    let _ = channel.shutdown(&mut table, &mut metrics);
    let (tx, _rx) = oneshot::channel();
    let late = table.register("c", ResponseFuture::new(1, 5, true, tx), &mut metrics);
    assert!(late.is_ok());
    let event = ReceiveEvent::Failed(io_error("reset"));
    let step = ClientInner::new().run_recv(event, &mut channel, &mut table, &mut metrics);
    assert!(matches!(step.shutdown, Some(ShutdownAction::AlreadyStarted)));
    assert_eq!(step.failed.len(), 1);
    assert_eq!(reason(&step.failed[0]), "IO error: reset");
    assert!(table.is_empty());
}

#[test]
fn closed_connection_ends_the_receive_task() {
    let mut metrics = TransportCounters::new();
    let mut table = PendingResponses::with_capacity(1);
    let mut channel = channel();
    let step =
        ClientInner::new().run_recv(ReceiveEvent::Closed, &mut channel, &mut table, &mut metrics);
    assert!(matches!(step.action, ReceiveAction::Return(Ok(()))));
    assert!(matches!(step.shutdown, Some(ShutdownAction::Close { .. })));
    assert!(!channel.is_healthy());
}

#[test]
fn pending_requests_fail_on_demand() {
    let mut metrics = TransportCounters::new();
    let mut table = PendingResponses::with_capacity(1);
    let channel = channel();
    let started =
        Client::new(()).send_read(&channel, command(1), 10, 0, &mut table, &mut metrics);
    assert!(started.is_ok());
    let failed =
        ClientInner::new().fail_pending("going away", &channel, &mut table, &mut metrics);
    assert_eq!(failed.len(), 1);
    assert_eq!(reason(&failed[0]), "going away");
    assert!(table.is_empty());
}

#[test]
fn call_of_a_client_times_out_as_send_read() {
    let mut metrics = TransportCounters::new();
    let mut table = PendingResponses::with_capacity(1);
    let channel = channel();
    let started =
        Client::new(()).send_read(&channel, command(1), 10, 0, &mut table, &mut metrics);
    let outcome = started
        .unwrap()
        .call
        .finish(ResponseEvent::DeadlineExpired, &mut table, &mut metrics);
    assert!(matches!(
        outcome.result,
        Err(RocketMQError::Timeout { operation: "send_read", timeout_ms: 10 })
    ));
}

#[test]
fn client_sends_without_deadline() {
    let mut metrics = TransportCounters::new();
    let mut table = PendingResponses::with_capacity(1);
    let mut channel = channel();
    let client = Client::new(());
    let enqueue = client.send(&channel, command(1)).unwrap();
    assert!(matches!(enqueue.message, ChannelMessage::Command(_, None, None)));
    assert_eq!(enqueue.wait.style, SendStyle::Remote);
    let _ = channel.shutdown(&mut table, &mut metrics);
    assert!(matches!(
        client.send(&channel, command(1)),
        Err(RocketMQError::Remote(text))
            if text == "Connection failed to channel: connection closed"
    ));
}

#[test]
fn connecting_gives_the_ends_or_the_first_failure() {
    let ends = |local: Result<u16, &str>, remote: Result<u16, &str>| {
        ClientInner::connect(Ok(StreamEnds {
            local_address: local.map(address).map_err(|text| text.to_string()),
            remote_address: remote.map(address).map_err(|text| text.to_string()),
        }))
    };
    assert_eq!(ends(Ok(1), Ok(2)).unwrap(), (address(1), address(2)));
    assert!(matches!(ends(Err("x"), Err("y")), Err(RocketMQError::IO(text)) if text == "x"));
    assert!(matches!(ends(Ok(1), Err("y")), Err(RocketMQError::IO(text)) if text == "y"));
    assert!(matches!(
        ClientInner::connect(Err("refused".to_string())),
        Err(RocketMQError::IO(text)) if text == "refused"
    ));
}

#[test]
fn listeners_hear_of_connections() {
    assert_eq!(
        ClientInner::connected_event(true, address(9)),
        Some(ConnectionNetEvent::CONNECTED(address(9)))
    );
    assert_eq!(ClientInner::connected_event(false, address(9)), None);
}
