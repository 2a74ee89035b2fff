use syncprims::oneshot::channel;
use syncprims::oneshot::RecvError;
use syncprims::oneshot_unchecked::UnsafeOneshotChannel;

#[test]
fn typed_send_then_receive_round_trip() {
    let (tx, rx) = channel();
    assert!(!rx.is_ready());
    tx.send(123u64);
    assert!(rx.is_ready());
    assert_eq!(rx.receive(), Ok(123));
    assert!(!rx.is_ready());
}

#[test]
fn typed_receive_before_send_is_usage_error() {
    let (tx, rx) = channel::<u32>();
    assert_eq!(rx.receive(), Err(RecvError));
    tx.send(5);
    assert_eq!(rx.receive(), Ok(5));
}

#[test]
fn typed_second_receive_is_usage_error() {
    let (tx, rx) = channel();
    tx.send(String::from("once"));
    assert_eq!(rx.receive(), Ok(String::from("once")));
    assert_eq!(rx.receive(), Err(RecvError));
}

#[test]
fn unreceived_message_destroyed_exactly_once_on_drop() {
    let probe = std::sync::Arc::new(());
    let (tx, rx) = channel();
    tx.send(std::sync::Arc::clone(&probe));
    assert_eq!(std::sync::Arc::strong_count(&probe), 2);
    drop(rx);
    // Both halves gone, message never received: destroyed exactly once.
    assert_eq!(std::sync::Arc::strong_count(&probe), 1);
}

#[test]
fn unused_channel_drops_nothing_extra() {
    let probe = std::sync::Arc::new(());
    let (tx, rx) = channel::<std::sync::Arc<()>>();
    drop(tx);
    drop(rx);
    assert_eq!(std::sync::Arc::strong_count(&probe), 1);
}

#[test]
fn unchecked_round_trip_and_usage_errors() {
    let mut ch = UnsafeOneshotChannel::new();
    assert!(!ch.is_ready());
    assert_eq!(ch.receive(), Err(RecvError));
    assert_eq!(ch.send(11u32), Ok(()));
    assert!(ch.is_ready());
    // The one send has happened: a second send fails and hands the value back.
    assert_eq!(ch.send(22), Err(22));
    assert_eq!(ch.receive(), Ok(11));
    assert!(!ch.is_ready());
    assert_eq!(ch.receive(), Err(RecvError));
    // Still counted as sent: sending after the receive fails too.
    assert_eq!(ch.send(33), Err(33));
}
