use syncprims::queue::SimpleChannel;

#[test]
fn messages_come_out_in_send_order() {
    let ch = SimpleChannel::new();
    ch.send(1u32);
    ch.send(2);
    ch.send(3);
    assert_eq!(ch.receive(), Some(1));
    assert_eq!(ch.receive(), Some(2));
    assert_eq!(ch.receive(), Some(3));
    assert_eq!(ch.try_receive(), None);
}

#[test]
fn try_receive_on_empty_is_none_and_does_not_block() {
    let ch = SimpleChannel::<String>::new();
    assert_eq!(ch.try_receive(), None);
    ch.send(String::from("x"));
    assert_eq!(ch.try_receive(), Some(String::from("x")));
    assert_eq!(ch.try_receive(), None);
}

#[test]
fn interleaved_sends_keep_order() {
    let ch = SimpleChannel::new();
    ch.send(10u64);
    ch.send(20);
    assert_eq!(ch.receive(), Some(10));
    ch.send(30);
    assert_eq!(ch.receive(), Some(20));
    assert_eq!(ch.receive(), Some(30));
}
