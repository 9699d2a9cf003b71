use bytes::Bytes;
use rocketmq_remoting::base::pending_responses::PendingResponses;
use rocketmq_remoting::base::response_future::{Completion, ResponseFuture};
use rocketmq_remoting::error::{NetworkError, RocketMQError, RocketMQResult};
use rocketmq_remoting::metrics::{snapshot, TransportCounters};
use rocketmq_remoting::protocol::RemotingCommand;
use tokio::sync::oneshot;

fn future(
    opaque: i32,
) -> (
    ResponseFuture,
    oneshot::Receiver<RocketMQResult<RemotingCommand>>,
) {
    let (tx, rx) = oneshot::channel();
    (ResponseFuture::new(opaque, 1000, true, tx), rx)
}

fn command(opaque: i32) -> RemotingCommand {
    RemotingCommand { code: 10, opaque, oneway: false, body: Bytes::from_static(b"body") }
}

fn failure(completion: &Completion) -> (String, String) {
    match &completion.outcome {
        Err(RocketMQError::Network(NetworkError::ConnectionFailed { addr, reason })) => {
            (addr.clone(), reason.clone())
        }
        _ => panic!("not a failed connection"),
    }
}

#[test]
fn registration_is_connection_scoped_and_cleanup_is_token_safe() {
    let mut metrics = TransportCounters::new();
    let mut table = PendingResponses::with_capacity(1);
    let (future_a, _rx_a) = future(7);
    let registration_a = table.register("a", future_a, &mut metrics).map_err(|_| ()).unwrap();
    assert!(table.register("a", future(7).0, &mut metrics).is_err());
    let registration_b = table.register("b", future(7).0, &mut metrics).map_err(|_| ()).unwrap();
    assert!(table.remove_if_token_matches(registration_a.identity(), &mut metrics).is_some());
    assert_eq!(table.len(), 1);
    drop(registration_b.release(&mut table, &mut metrics));
}

#[test]
fn response_take_removes_before_completion() {
    let mut metrics = TransportCounters::new();
    let mut table = PendingResponses::with_capacity(1);
    let (future, _rx) = future(9);
    let _registration = table.register("a", future, &mut metrics).map_err(|_| ()).unwrap();
    assert!(table.take("a", 9, &mut metrics).is_some());
    assert_eq!(table.len(), 0);
}

#[test]
fn requests_are_registered_until_they_are_removed() {
    let mut metrics = TransportCounters::new();
    let mut table = PendingResponses::with_capacity(1);
    let first = table.register("a", future(1).0, &mut metrics).map_err(|_| ()).unwrap();
    let second = table.register("a", future(2).0, &mut metrics).map_err(|_| ()).unwrap();
    assert!(table.register("a", future(1).0, &mut metrics).is_err());
    assert!(table.take("b", 1, &mut metrics).is_none());
    assert!(table.is_registered(first.identity()));
    assert_eq!(table.len(), 2);

    assert!(table.take("a", 1, &mut metrics).is_some());
    assert!(!table.is_registered(first.identity()));
    let later = table.register("a", future(1).0, &mut metrics).map_err(|_| ()).unwrap();
    assert!(!table.is_registered(first.identity()));
    assert!(table.is_registered(later.identity()));
    assert!(table.is_registered(second.identity()));
    assert_eq!(table.len(), 2);

    drop(table.fail_connection("a", "gone", &mut metrics));
    assert!(!table.is_registered(later.identity()));
    assert!(!table.is_registered(second.identity()));
    assert_eq!(table.len(), 0);
}

#[test]
fn refused_registration_gives_the_future_back() {
    let mut metrics = TransportCounters::new();
    let mut table = PendingResponses::with_capacity(4);
    let first = table.register("a", future(7).0, &mut metrics);
    assert!(first.is_ok());
    let (tx, mut rx) = oneshot::channel();
    let refused = table
        .register("a", ResponseFuture::new(7, 250, false, tx), &mut metrics)
        .err()
        .unwrap();
    assert_eq!(refused.opaque, 7);
    assert_eq!(refused.timeout_millis, 250);
    assert!(!refused.send_request_ok);
    assert!(refused.complete(Ok(command(7))).deliver().is_ok());
    assert_eq!(rx.try_recv().unwrap().unwrap().opaque, 7);
}

#[test]
fn stale_registration_leaves_its_successor_alone() {
    let mut metrics = TransportCounters::new();
    let mut table = PendingResponses::with_capacity(1);
    let stale = table.register("a", future(7).0, &mut metrics).map_err(|_| ()).unwrap();
    assert!(table.take("a", 7, &mut metrics).is_some());
    let (successor_future, _rx) = future(7);
    let successor = table.register("a", successor_future, &mut metrics).map_err(|_| ()).unwrap();
    assert!(!table.is_registered(stale.identity()));
    assert!(table.is_registered(successor.identity()));
    assert!(stale.request().fail("late", &mut table, &mut metrics).is_none());
    assert!(stale.release(&mut table, &mut metrics).is_none());
    assert_eq!(table.len(), 1);
    assert!(successor.request().is_registered(&table));
    assert!(successor.release(&mut table, &mut metrics).is_some());
    assert!(table.is_empty());
}

#[test]
fn taken_waiter_gets_its_response() {
    let mut metrics = TransportCounters::new();
    let mut table = PendingResponses::with_capacity(1);
    let (waiting, mut rx) = future(9);
    let registration = table.register("a", waiting, &mut metrics).map_err(|_| ()).unwrap();
    assert!(table.take("b", 9, &mut metrics).is_none());
    assert!(table.take("a", 8, &mut metrics).is_none());
    let taken = table.take("a", 9, &mut metrics).unwrap();
    assert!(table.take("a", 9, &mut metrics).is_none());
    assert!(taken.complete(Ok(command(9))).deliver().is_ok());
    let response = rx.try_recv().unwrap().unwrap();
    assert_eq!(response.opaque, 9);
    assert_eq!(response.body, Bytes::from_static(b"body"));
    assert!(registration.release(&mut table, &mut metrics).is_none());
}

#[test]
fn undelivered_outcome_comes_back() {
    let (waiting, rx) = future(3);
    drop(rx);
    let unsent = waiting.complete(Ok(command(3))).deliver().err().unwrap();
    assert_eq!(unsent.unwrap().opaque, 3);
}

#[test]
fn failed_connection_tells_each_of_its_waiters_once() {
    let mut metrics = TransportCounters::new();
    let mut table = PendingResponses::with_capacity(4);
    let mut registrations = Vec::new();
    let mut receivers = Vec::new();
    for opaque in 1..=3 {
        let (waiting, rx) = future(opaque);
        registrations.push(table.register("a", waiting, &mut metrics).map_err(|_| ()).unwrap());
        receivers.push(rx);
    }
    let (other, mut other_rx) = future(2);
    let other = table.register("b", other, &mut metrics).map_err(|_| ()).unwrap();
    assert_eq!(snapshot(&metrics).pending_responses, 4);

    let failed = table.fail_connection("a", "reset by peer", &mut metrics);
    assert_eq!(failed.len(), 3);
    assert_eq!(table.len(), 1);
    assert_eq!(snapshot(&metrics).pending_responses, 1);
    for completion in failed {
        assert_eq!(failure(&completion), ("remoting".to_string(), "reset by peer".to_string()));
        assert!(completion.deliver().is_ok());
    }
    for mut rx in receivers {
        assert!(matches!(rx.try_recv(), Ok(Err(RocketMQError::Network(_)))));
    }
    assert!(other_rx.try_recv().is_err());
    assert!(table.fail_connection("a", "again", &mut metrics).is_empty());
    assert!(table.is_registered(other.identity()));
}

#[test]
fn failed_request_tells_its_own_waiter() {
    let mut metrics = TransportCounters::new();
    let mut table = PendingResponses::with_capacity(2);
    let (first, mut first_rx) = future(1);
    let (second, mut second_rx) = future(2);
    let first = table.register("a", first, &mut metrics).map_err(|_| ()).unwrap();
    let _second = table.register("a", second, &mut metrics).map_err(|_| ()).unwrap();
    let completion = first.request().fail("no route", &mut table, &mut metrics).unwrap();
    assert_eq!(failure(&completion), ("remoting".to_string(), "no route".to_string()));
    assert!(completion.deliver().is_ok());
    assert!(first_rx.try_recv().unwrap().is_err());
    assert!(second_rx.try_recv().is_err());
    assert_eq!(table.len(), 1);
}

#[test]
fn timed_out_request_tells_its_waiter_how_long_it_waited() {
    let mut metrics = TransportCounters::new();
    let mut table = PendingResponses::with_capacity(1);
    let (waiting, mut rx) = future(5);
    let registration = table.register("a", waiting, &mut metrics).map_err(|_| ()).unwrap();
    let request = registration.request();
    assert_eq!(request.timeout_millis(), 1000);
    let completion = request.clone().timeout(1000, &mut table, &mut metrics).unwrap();
    assert!(completion.deliver().is_ok());
    assert!(matches!(
        rx.try_recv(),
        Ok(Err(RocketMQError::Timeout { operation: "remoting", timeout_ms: 1000 }))
    ));
    assert!(registration.timeout(1000, &mut table, &mut metrics).is_none());
    assert!(table.is_empty());
}

#[test]
fn gauge_counts_the_requests_of_all_tables() {
    let mut metrics = TransportCounters::new();
    let mut left = PendingResponses::with_capacity(0);
    let mut right = PendingResponses::with_capacity(usize::MAX);
    let a = left.register("a", future(1).0, &mut metrics).map_err(|_| ()).unwrap();
    let b = right.register("a", future(1).0, &mut metrics).map_err(|_| ()).unwrap();
    assert!(right.register("a", future(1).0, &mut metrics).is_err());
    assert_eq!(snapshot(&metrics).pending_responses, left.len() + right.len());
    assert_eq!(snapshot(&metrics).pending_responses, 2);
    assert!(a.release(&mut left, &mut metrics).is_some());
    assert_eq!(snapshot(&metrics).pending_responses, 1);
    assert!(b.release(&mut right, &mut metrics).is_some());
    assert_eq!(snapshot(&metrics).pending_responses, 0);
}
