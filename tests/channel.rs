use futex_sync::{Channel, ChannelState, ProtocolViolation};
use std::rc::Rc;

#[test]
fn send_then_receive_through_halves() {
    let mut channel = Channel::<&'static str>::new();
    let (sender, receiver) = channel.split();
    assert!(!receiver.is_ready(&channel));
    assert_eq!(sender.send(&mut channel, "hello, world"), Ok(()));
    assert!(receiver.is_ready(&channel));
    assert_eq!(receiver.receive(&mut channel), Ok("hello, world"));
    assert!(!channel.is_ready());
}

#[test]
fn new_channel_is_not_ready() {
    let channel = Channel::<u8>::new();
    assert!(!channel.is_ready());
}

#[test]
fn second_send_is_a_protocol_violation() {
    let mut channel = Channel::new();
    assert_eq!(channel.send(1u32), Ok(()));
    assert_eq!(channel.send(2u32), Err(ProtocolViolation { found: ChannelState::Ready }));
    assert_eq!(channel.receive(), Ok(1u32));
}

#[test]
fn receive_before_send_is_a_protocol_violation() {
    let mut channel = Channel::<u32>::new();
    assert_eq!(channel.receive(), Err(ProtocolViolation { found: ChannelState::Empty }));
}

#[test]
fn second_receive_is_a_protocol_violation() {
    let mut channel = Channel::new();
    assert_eq!(channel.send(7u32), Ok(()));
    assert_eq!(channel.receive(), Ok(7u32));
    assert_eq!(channel.receive(), Err(ProtocolViolation { found: ChannelState::Empty }));
}

#[test]
fn channel_is_reusable_after_a_pair() {
    let mut channel = Channel::new();
    assert_eq!(channel.send(String::from("a")), Ok(()));
    assert_eq!(channel.receive(), Ok(String::from("a")));
    assert_eq!(channel.send(String::from("b")), Ok(()));
    assert_eq!(channel.receive(), Ok(String::from("b")));
}

#[test]
fn dropping_a_channel_with_a_pending_value_drops_it() {
    let payload = Rc::new(5u8);
    let mut channel = Channel::new();
    assert_eq!(channel.send(Rc::clone(&payload)), Ok(()));
    assert_eq!(Rc::strong_count(&payload), 2);
    drop(channel);
    assert_eq!(Rc::strong_count(&payload), 1);
}

#[test]
fn cleanup_after_zero_and_one_pairs() {
    let payload = Rc::new(5u8);
    let unused = Channel::<Rc<u8>>::new();
    drop(unused);
    assert_eq!(Rc::strong_count(&payload), 1);

    let mut channel = Channel::new();
    assert_eq!(channel.send(Rc::clone(&payload)), Ok(()));
    let got = channel.receive().unwrap();
    assert_eq!(*got, 5);
    assert_eq!(Rc::strong_count(&payload), 2);
    drop(channel);
    assert_eq!(Rc::strong_count(&payload), 2);
    drop(got);
    assert_eq!(Rc::strong_count(&payload), 1);
}

#[test]
fn failed_send_leaves_the_pending_value() {
    let mut channel = Channel::new();
    assert_eq!(channel.send(10i64), Ok(()));
    assert!(channel.send(20i64).is_err());
    assert!(channel.is_ready());
    assert_eq!(channel.receive(), Ok(10i64));
}
