use crossbeam::channel::RecvTimeoutError;
use rust_isolate::IsolateChannel;
use rust_isolate::IsolateChannelError;
use rust_isolate::timeout_error_of;

#[test]
pub fn test_new_channel() {
    let _ = IsolateChannel::<String>::new();
}

// A message sent on one endpoint is received exactly once, and only on the
// peer endpoint.
#[test]
pub fn test_send_is_received_once_on_peer() {
    let (a, b) = IsolateChannel::<String>::new();
    a.send("hello".to_string()).unwrap();
    assert_eq!(b.receive().unwrap(), "hello");
    // Not a second time on the peer...
    assert_eq!(b.receive_timeout(50), Err(IsolateChannelError::Timeout));
    // ...and never on the sending endpoint itself.
    a.send("again".to_string()).unwrap();
    assert_eq!(a.receive_timeout(50), Err(IsolateChannelError::Timeout));
    assert_eq!(b.receive().unwrap(), "again");
}

// The two endpoints of a pair are cross-wired: each side's send feeds only
// the other side's receive.
#[test]
pub fn test_channel_is_bidirectional() {
    let (a, b) = IsolateChannel::<u64>::new();
    a.send(1).unwrap();
    b.send(2).unwrap();
    assert_eq!(b.receive().unwrap(), 1);
    assert_eq!(a.receive().unwrap(), 2);
}

// Messages of one producer arrive in send order.
#[test]
pub fn test_send_order_is_kept() {
    let (a, b) = IsolateChannel::<u64>::new();
    for i in 0..10 {
        a.send(i).unwrap();
    }
    for i in 0..10 {
        assert_eq!(b.receive().unwrap(), i);
    }
}

// After close() on one endpoint, no sibling endpoint of the same channel
// hands out further clones, while already-obtained clones keep working.
#[test]
pub fn test_close_blocks_future_clones_only() {
    let (a, b) = IsolateChannel::<String>::new();
    let held = a.clone().expect("an active channel must be cloneable");
    a.close();
    assert!(a.clone().is_none());
    assert!(b.clone().is_none());
    assert!(held.clone().is_none());
    // The clone obtained before the close still moves messages.
    held.send("still alive".to_string()).unwrap();
    assert_eq!(b.receive().unwrap(), "still alive");
}

// close() is idempotent and does not disturb in-flight messages.
#[test]
pub fn test_close_is_idempotent_and_keeps_messages() {
    let (a, b) = IsolateChannel::<u64>::new();
    a.send(7).unwrap();
    a.close();
    a.close();
    assert_eq!(b.receive().unwrap(), 7);
}

// Sending fails only once the peer side is entirely gone.
#[test]
pub fn test_send_fails_once_peer_is_dropped() {
    let (a, b) = IsolateChannel::<u64>::new();
    drop(b);
    assert_eq!(a.send(1), Err(IsolateChannelError::ConnectionFailed));
    assert_eq!(a.receive(), Err(IsolateChannelError::ConnectionFailed));
    assert_eq!(a.receive_timeout(50), Err(IsolateChannelError::ConnectionFailed));
}

// The two failure kinds of a bounded receive are told apart exactly.
#[test]
pub fn test_timeout_error_mapping() {
    assert_eq!(timeout_error_of(RecvTimeoutError::Timeout), IsolateChannelError::Timeout);
    assert_eq!(
        timeout_error_of(RecvTimeoutError::Disconnected),
        IsolateChannelError::ConnectionFailed
    );
}
