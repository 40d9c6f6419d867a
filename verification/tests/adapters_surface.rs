use dam_channels::adapters::RecvAdapter;
use dam_channels::adapters::SendAdapter;
use dam_channels::channel::ChannelElement;
use dam_channels::channel::Recv;
use dam_channels::clock::LocalClock;
use dam_channels::factory::bounded;
use dam_channels::factory::void;
use dam_channels::time::Time;

#[test]
fn recv_adapter_converts_and_preserves_time() {
    let (mut snd, mut rcv) = bounded::<u32>(4);
    let producer = LocalClock::new(Time::new(3));
    let consumer = LocalClock::new(Time::new(3));
    snd.attach_sender(&producer.view_handle());
    rcv.attach_receiver(&consumer.view_handle());
    assert_eq!(snd.send(ChannelElement::new(Time::new(3), 7u32)), Ok(()));

    let peeked: Recv<u64> = RecvAdapter::<u64>::peek(&mut rcv);
    assert_eq!(peeked, Recv::Something(ChannelElement::new(Time::new(3), 7u64)));

    let got: Result<ChannelElement<u64>, _> = RecvAdapter::<u64>::dequeue(&mut rcv, &consumer);
    let e = got.expect("an element was queued");
    assert_eq!(e.time, Time::new(3));
    assert_eq!(e.data, 7u64);
}

#[test]
fn recv_adapter_collapses_close_into_dequeue_error() {
    let (snd, mut rcv) = bounded::<u32>(2);
    let consumer = LocalClock::new(Time::new(1));
    rcv.attach_receiver(&consumer.view_handle());
    drop(snd);

    let got: Result<ChannelElement<u64>, _> = RecvAdapter::<u64>::dequeue(&mut rcv, &consumer);
    assert!(got.is_err());
    let peeked: Result<ChannelElement<u64>, _> = RecvAdapter::<u64>::peek_next(&mut rcv, &consumer);
    assert!(peeked.is_err());
}

#[test]
fn recv_adapter_peek_next_yields_queued_element() {
    let (mut snd, mut rcv) = bounded::<u32>(2);
    let producer = LocalClock::new(Time::new(2));
    let consumer = LocalClock::new(Time::new(2));
    snd.attach_sender(&producer.view_handle());
    rcv.attach_receiver(&consumer.view_handle());
    assert_eq!(snd.send(ChannelElement::new(Time::new(2), 5u32)), Ok(()));

    let peeked: Result<ChannelElement<u64>, _> = RecvAdapter::<u64>::peek_next(&mut rcv, &consumer);
    assert_eq!(peeked.unwrap().data, 5u64);
}

#[test]
fn send_adapter_converts_inbound_elements() {
    let (mut snd, mut rcv) = bounded::<u64>(4);
    let producer = LocalClock::new(Time::new(6));
    let consumer = LocalClock::new(Time::new(6));
    snd.attach_sender(&producer.view_handle());
    rcv.attach_receiver(&consumer.view_handle());

    let r = SendAdapter::<u32>::enqueue(&mut snd, &producer, ChannelElement::new(
        Time::new(6),
        9u32,
    ));
    assert_eq!(r, Ok(()));
    match rcv.recv() {
        Recv::Something(e) => {
            assert_eq!(e.data, 9u64);
            assert_eq!(e.time, Time::new(6));
        },
        other => panic!("expected the converted element, got {:?}", other),
    }
}

#[test]
fn send_adapter_collapses_gone_receiver_into_enqueue_error() {
    let (mut snd, rcv) = bounded::<u64>(2);
    let producer = LocalClock::new(Time::new(1));
    snd.attach_sender(&producer.view_handle());
    drop(rcv);

    let r = SendAdapter::<u32>::enqueue(&mut snd, &producer, ChannelElement::new(
        Time::new(1),
        1u32,
    ));
    assert!(r.is_err());
}

#[test]
fn wait_until_available_on_open_slot_and_on_gone_receiver() {
    let (mut snd, rcv) = bounded::<u64>(1);
    let producer = LocalClock::new(Time::new(1));
    snd.attach_sender(&producer.view_handle());
    assert_eq!(snd.wait_until_available(&producer), Ok(()));

    assert_eq!(snd.send(ChannelElement::new(Time::new(1), 2)), Ok(()));
    drop(rcv);
    assert!(snd.wait_until_available(&producer).is_err());
}

#[test]
fn enqueue_restamps_with_the_current_clock() {
    let (mut snd, mut rcv) = bounded::<u64>(2);
    let producer = LocalClock::new(Time::new(20));
    let consumer = LocalClock::new(Time::new(20));
    snd.attach_sender(&producer.view_handle());
    rcv.attach_receiver(&consumer.view_handle());

    // The element is stamped 4, below the sender's clock of 20: enqueue
    // raises the stamp rather than sending into the past.
    assert_eq!(snd.enqueue(&producer, ChannelElement::new(Time::new(4), 3)), Ok(()));
    match rcv.recv() {
        Recv::Something(e) => assert_eq!(e.time, Time::new(20)),
        other => panic!("expected the restamped element, got {:?}", other),
    }
}

#[test]
fn void_sender_enqueue_is_idempotent() {
    let mut snd = void::<u64>();
    let clock = LocalClock::new(Time::new(0));
    for i in 0..100u64 {
        assert_eq!(snd.enqueue(&clock, ChannelElement::new(Time::new(i), i)), Ok(()));
    }
    assert_eq!(snd.in_flight(), 0);
}
