use wallet_fleet::channel::{subscribe_frame, ConfirmationChannel};
use wallet_fleet::errors::ErrorKind;

#[test]
fn notification_wakes_exactly_the_matching_waiter() {
    let mut ch = ConfirmationChannel::new();
    ch.reconnect();
    let a = ch.register_wait(String::from("sigA"));
    let b = ch.register_wait(String::from("sigB"));
    assert_ne!(a, b);

    // The acknowledgement for the later registration arrives first.
    ch.on_ack(b, 55).unwrap();
    ch.on_ack(a, 77).unwrap();

    let woken = ch.on_notification(55).unwrap();
    assert_eq!(woken, b);
    assert_eq!(ch.waiter_woken(b), Some(true));
    assert_eq!(ch.waiter_woken(a), Some(false));
}

#[test]
fn unroutable_messages_are_protocol_errors() {
    let mut ch = ConfirmationChannel::new();
    ch.reconnect();
    let a = ch.register_wait(String::from("sigA"));

    // A notification with no acknowledged subscription cannot be routed.
    let err = ch.on_notification(99).unwrap_err();
    assert!(matches!(err.kind(), ErrorKind::Protocol));

    // An acknowledgement for a request never registered.
    let err = ch.on_ack(a + 1, 1).unwrap_err();
    assert!(matches!(err.kind(), ErrorKind::Protocol));

    // A subscription number acknowledged twice.
    ch.on_ack(a, 5).unwrap();
    let b = ch.register_wait(String::from("sigB"));
    let err = ch.on_ack(b, 5).unwrap_err();
    assert!(matches!(err.kind(), ErrorKind::Protocol));
}

#[test]
fn reconnect_orphans_pending_waiters_and_serves_new_ones() {
    let mut ch = ConfirmationChannel::new();
    ch.reconnect();
    let stale = ch.register_wait(String::from("old"));
    ch.on_ack(stale, 8).unwrap();

    // Reconnecting while a wait is pending must not crash, and discards it.
    ch.reconnect();
    assert_eq!(ch.waiter_woken(stale), None);

    // The pre-reconnect subscription is gone too.
    let err = ch.on_notification(8).unwrap_err();
    assert!(matches!(err.kind(), ErrorKind::Protocol));

    // A wait registered after the reconnect works end to end.
    let fresh = ch.register_wait(String::from("new"));
    assert_ne!(fresh, stale);
    ch.on_ack(fresh, 8).unwrap();
    let woken = ch.on_notification(8).unwrap();
    assert_eq!(woken, fresh);
    assert_eq!(ch.waiter_woken(fresh), Some(true));
}

#[test]
fn completed_wait_removes_its_entry() {
    let mut ch = ConfirmationChannel::new();
    ch.reconnect();
    let a = ch.register_wait(String::from("sigA"));
    ch.on_ack(a, 1).unwrap();
    ch.on_notification(1).unwrap();
    ch.complete_wait(a);
    assert_eq!(ch.waiter_woken(a), None);
}

#[test]
fn disconnection_keeps_state_until_reconnect() {
    let mut ch = ConfirmationChannel::new();
    ch.reconnect();
    assert!(ch.is_connected());
    let a = ch.register_wait(String::from("sigA"));
    ch.mark_disconnected();
    assert!(!ch.is_connected());
    assert_eq!(ch.waiter_woken(a), Some(false));
}

#[test]
fn subscribe_frame_is_the_expected_json() {
    let frame = subscribe_frame(3, "abc");
    assert_eq!(
        frame,
        "{\"jsonrpc\":\"2.0\",\"id\":\"3\",\"method\":\"signatureSubscribe\",\"params\":[\"abc\",{\"commitment\":\"confirmed\"}]}"
    );

    // It must parse as JSON and carry the fields the server reads.
    let v: serde_json::Value = serde_json::from_str(&frame).unwrap();
    assert_eq!(v["jsonrpc"], "2.0");
    assert_eq!(v["id"], "3");
    assert_eq!(v["method"], "signatureSubscribe");
    assert_eq!(v["params"][0], "abc");
    assert_eq!(v["params"][1]["commitment"], "confirmed");
}

#[test]
fn rpc_request_frame_is_the_expected_json() {
    let frame = wallet_fleet::rpc::rpc_request_frame("collect_sol", "getBalance", "[\"pk\"]");
    assert_eq!(
        frame,
        "{\"jsonrpc\":\"2.0\",\"id\":\"collect_sol\",\"method\":\"getBalance\",\"params\":[\"pk\"]}"
    );
    let v: serde_json::Value = serde_json::from_str(&frame).unwrap();
    assert_eq!(v["method"], "getBalance");
    assert_eq!(v["params"][0], "pk");
}
