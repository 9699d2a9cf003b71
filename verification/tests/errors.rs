use rocketmq_remoting::error::{io_error, remote_error, RocketMQError};
use rocketmq_remoting::time::{deadline_after, has_expired};

#[test]
fn errors_are_reported_in_words() {
    assert_eq!(
        RocketMQError::network_connection_failed("channel", "connection closed").text(),
        "Connection failed to channel: connection closed"
    );
    assert_eq!(io_error("broken pipe").text(), "IO error: broken pipe");
    assert_eq!(remote_error("no such topic").text(), "no such topic");
    assert_eq!(RocketMQError::Other("bad header".to_string()).text(), "bad header");
    assert_eq!(
        RocketMQError::Timeout { operation: "send_read", timeout_ms: 3000 }.text(),
        "send_read timed out after 3000ms"
    );
}

#[test]
fn timeouts_are_printed_in_decimal() {
    for timeout_ms in [0, 7, 10, 99, 100, 1_234_567_890, u64::MAX] {
        let error = RocketMQError::Timeout { operation: "x", timeout_ms };
        assert_eq!(error.text(), format!("x timed out after {}ms", timeout_ms));
    }
}

#[test]
fn deadlines_are_exact_and_never_overflow() {
    assert_eq!(deadline_after(5, 3), 3_000_005);
    assert_eq!(
        deadline_after(u64::MAX, u64::MAX),
        u64::MAX as u128 + u64::MAX as u128 * 1_000_000
    );
    assert!(has_expired(3_000_005, 3_000_005));
    assert!(!has_expired(3_000_005, 3_000_004));
}
