use rocketmq_remoting::metrics::{
    pending_registered, pending_removed, recv_task_started, send_task_started, snapshot,
    TransportCounters, TransportMetrics,
};

#[test]
fn counters_start_at_zero() {
    let counters = TransportCounters::new();
    assert_eq!(snapshot(&counters), TransportMetrics::default());
    assert_eq!(
        TransportMetrics::default(),
        TransportMetrics { pending_responses: 0, send_tasks: 0, recv_tasks: 0 }
    );
}

#[test]
fn tasks_are_counted_until_they_finish() {
    let mut counters = TransportCounters::new();
    let first = send_task_started(&mut counters);
    let second = send_task_started(&mut counters);
    let receive = recv_task_started(&mut counters);
    assert_eq!(
        snapshot(&counters),
        TransportMetrics { pending_responses: 0, send_tasks: 2, recv_tasks: 1 }
    );
    first.finish(&mut counters);
    receive.finish(&mut counters);
    assert_eq!(
        snapshot(&counters),
        TransportMetrics { pending_responses: 0, send_tasks: 1, recv_tasks: 0 }
    );
    second.finish(&mut counters);
    assert_eq!(snapshot(&counters), TransportMetrics::default());
}

#[test]
fn pending_gauge_wraps_around() {
    let mut counters = TransportCounters::new();
    pending_registered(&mut counters);
    assert_eq!(snapshot(&counters).pending_responses, 1);
    pending_removed(&mut counters);
    pending_removed(&mut counters);
    assert_eq!(snapshot(&counters).pending_responses, usize::MAX);
    pending_registered(&mut counters);
    assert_eq!(snapshot(&counters).pending_responses, 0);
}
