use dam_channels::channel::ChannelElement;
use dam_channels::channel::ChannelFlavor;
use dam_channels::channel::ChannelID;
use dam_channels::channel::LogEntry;
use dam_channels::channel::Recv;
use dam_channels::channel::ReceiverEvent;
use dam_channels::channel::SendEvent;
use dam_channels::channel::SendOptions;
use dam_channels::clock::LocalClock;
use dam_channels::factory::bounded;
use dam_channels::factory::bounded_with_flavor;
use dam_channels::factory::bounded_with_id;
use dam_channels::factory::unbounded;
use dam_channels::factory::void;
use dam_channels::logging::collect_batch;
use dam_channels::logging::log_stream;
use dam_channels::logging::BatchStatus;
use dam_channels::time::Time;

#[test]
fn time_ordering_and_max() {
    let a = Time::new(3);
    let b = Time::new(7);
    assert!(a < b);
    assert!(a <= a);
    assert!(b > a);
    assert_eq!(a.max(b), Time::new(7));
    assert_eq!(b.max(a), Time::new(7));
    assert_eq!(a.max(a), a);
}

#[test]
fn time_infinite_and_incr() {
    let inf = Time::infinite();
    assert!(inf.is_infinite());
    assert!(!Time::new(0).is_infinite());
    assert_eq!(inf.incr(), inf);
    assert_eq!(Time::new(4).incr(), Time::new(5));
    assert!(Time::new(u64::MAX).is_infinite());
    assert!(inf > Time::new(12));
}

#[test]
fn element_update_time_is_monotone() {
    let mut e = ChannelElement::new(Time::new(10), 42u64);
    e.update_time(Time::new(3));
    assert_eq!(e.time, Time::new(10));
    e.update_time(Time::new(15));
    assert_eq!(e.time, Time::new(15));
    assert_eq!(e.data, 42u64);
}

#[test]
fn simple_send_recv() {
    // Capacity 2, both actors at time 5; one element crosses, the counter
    // goes 0 -> 1 -> 0, and a second send is accepted.
    let (mut snd, mut rcv) = bounded::<u64>(2);
    let producer = LocalClock::new(Time::new(5));
    let consumer = LocalClock::new(Time::new(5));
    snd.attach_sender(&producer.view_handle());
    rcv.attach_receiver(&consumer.view_handle());

    assert_eq!(snd.in_flight(), 0);
    assert_eq!(snd.send(ChannelElement::new(Time::new(5), 11)), Ok(()));
    assert_eq!(snd.in_flight(), 1);

    let got = rcv.recv();
    assert_eq!(got, Recv::Something(ChannelElement::new(Time::new(5), 11)));
    assert_eq!(rcv.in_flight(), 0);

    assert_eq!(snd.send(ChannelElement::new(Time::new(5), 12)), Ok(()));
}

#[test]
fn backpressure_reports_future_ack() {
    // The receiver consumes at time 15, past the sender's clock of 10: the
    // refused third send learns the slot opens at 15.
    let (mut snd, mut rcv) = bounded::<u64>(2);
    let producer = LocalClock::new(Time::new(10));
    let consumer = LocalClock::new(Time::new(15));
    snd.attach_sender(&producer.view_handle());
    rcv.attach_receiver(&consumer.view_handle());

    assert_eq!(snd.send(ChannelElement::new(Time::new(10), 1)), Ok(()));
    assert_eq!(snd.send(ChannelElement::new(Time::new(10), 2)), Ok(()));
    assert!(matches!(rcv.recv(), Recv::Something(_)));
    assert!(matches!(rcv.recv(), Recv::Something(_)));

    let refused = snd.send(ChannelElement::new(Time::new(10), 3));
    assert_eq!(refused, Err(SendOptions::AvailableAt(Time::new(15))));
}

#[test]
fn past_ack_credits_capacity() {
    // The receiver consumes at the sender's own time: the drained
    // acknowledgement credits the slot and the second send goes through.
    let (mut snd, mut rcv) = bounded::<u64>(1);
    let producer = LocalClock::new(Time::new(10));
    let consumer = LocalClock::new(Time::new(10));
    snd.attach_sender(&producer.view_handle());
    rcv.attach_receiver(&consumer.view_handle());

    assert_eq!(snd.send(ChannelElement::new(Time::new(10), 1)), Ok(()));
    assert!(matches!(rcv.recv(), Recv::Something(_)));
    assert_eq!(snd.send(ChannelElement::new(Time::new(10), 2)), Ok(()));
    assert_eq!(snd.local_delta(), 1);
}

#[test]
fn receiver_gone_means_never() {
    let (mut snd, rcv) = bounded::<u64>(1);
    let producer = LocalClock::new(Time::new(10));
    snd.attach_sender(&producer.view_handle());

    assert_eq!(snd.send(ChannelElement::new(Time::new(10), 1)), Ok(()));
    drop(rcv);
    let refused = snd.send(ChannelElement::new(Time::new(10), 2));
    assert_eq!(refused, Err(SendOptions::Never));
}

#[test]
fn sender_close_drains_then_closes() {
    let (mut snd, mut rcv) = bounded::<u64>(4);
    let producer = LocalClock::new(Time::new(1));
    let consumer = LocalClock::new(Time::new(5));
    snd.attach_sender(&producer.view_handle());
    rcv.attach_receiver(&consumer.view_handle());

    assert_eq!(snd.send(ChannelElement::new(Time::new(1), 7)), Ok(()));
    producer.advance(Time::new(2));
    assert_eq!(snd.send(ChannelElement::new(Time::new(2), 8)), Ok(()));
    snd.close();

    assert_eq!(rcv.peek(), Recv::Something(ChannelElement::new(Time::new(1), 7)));
    assert_eq!(rcv.recv(), Recv::Something(ChannelElement::new(Time::new(1), 7)));
    assert_eq!(rcv.peek(), Recv::Something(ChannelElement::new(Time::new(2), 8)));
    assert_eq!(rcv.recv(), Recv::Something(ChannelElement::new(Time::new(2), 8)));
    assert_eq!(rcv.peek(), Recv::Closed);
    assert_eq!(rcv.recv(), Recv::Closed);
}

#[test]
fn peek_keeps_its_time_promise() {
    // Receiver at 7, empty channel, sender's clock at 9: the peek promises
    // nothing arrives before 9, and repeats the promise without waiting.
    let (mut snd, mut rcv) = bounded::<u64>(2);
    let producer = LocalClock::new(Time::new(9));
    let consumer = LocalClock::new(Time::new(7));
    snd.attach_sender(&producer.view_handle());
    rcv.attach_receiver(&consumer.view_handle());

    assert_eq!(rcv.peek(), Recv::Nothing(Time::new(9)));
    assert_eq!(rcv.peek(), Recv::Nothing(Time::new(9)));
}

#[test]
fn terminated_sender_reads_as_closed() {
    // A sender whose actor has terminated (infinite TLB) and whose stream
    // stays empty turns the peek into Closed.
    let (mut snd, mut rcv) = bounded::<u64>(2);
    let producer = LocalClock::new(Time::new(0));
    let consumer = LocalClock::new(Time::new(3));
    snd.attach_sender(&producer.view_handle());
    rcv.attach_receiver(&consumer.view_handle());
    producer.terminate();

    assert_eq!(rcv.peek(), Recv::Closed);
}

#[test]
fn void_sender_accepts_everything_silently() {
    let mut snd = void::<u64>();
    let (log_tx, log_rx) = log_stream();
    snd.attach_logger(log_tx);
    for i in 0..10_000u64 {
        assert_eq!(snd.send(ChannelElement::new(Time::new(i), i)), Ok(()));
    }
    assert_eq!(snd.in_flight(), 0);
    assert_eq!(snd.local_delta(), 0);

    let mut batch = Vec::new();
    let status = collect_batch(&log_rx, &mut batch, 100);
    assert_eq!(status, BatchStatus::Drained);
    assert!(batch.is_empty());
}

#[test]
fn counter_tracks_sends_minus_recvs() {
    let (mut snd, mut rcv) = bounded::<u64>(8);
    let producer = LocalClock::new(Time::new(2));
    let consumer = LocalClock::new(Time::new(2));
    snd.attach_sender(&producer.view_handle());
    rcv.attach_receiver(&consumer.view_handle());

    for i in 0..5u64 {
        assert_eq!(snd.send(ChannelElement::new(Time::new(2), i)), Ok(()));
        assert!(snd.in_flight() <= 8);
    }
    assert_eq!(snd.in_flight(), 5);
    for _ in 0..3 {
        assert!(matches!(rcv.recv(), Recv::Something(_)));
    }
    assert_eq!(snd.in_flight(), 2);
}

#[test]
fn fifo_order_is_kept() {
    let (mut snd, mut rcv) = bounded::<u64>(16);
    let producer = LocalClock::new(Time::new(1));
    let consumer = LocalClock::new(Time::new(1));
    snd.attach_sender(&producer.view_handle());
    rcv.attach_receiver(&consumer.view_handle());

    for i in 0..10u64 {
        producer.advance(Time::new(1 + i));
        assert_eq!(snd.send(ChannelElement::new(Time::new(1 + i), 100 + i)), Ok(()));
    }
    let mut last_stamp = Time::new(0);
    for i in 0..10u64 {
        match rcv.recv() {
            Recv::Something(e) => {
                assert_eq!(e.data, 100 + i);
                assert!(last_stamp <= e.time);
                last_stamp = e.time;
            },
            other => panic!("expected an element, got {:?}", other),
        }
    }
}

#[test]
fn unbounded_never_backpressures() {
    let (mut snd, rcv) = unbounded::<u64>();
    let producer = LocalClock::new(Time::new(0));
    snd.attach_sender(&producer.view_handle());
    for i in 0..1000u64 {
        assert_eq!(snd.send(ChannelElement::new(Time::new(0), i)), Ok(()));
    }
    assert_eq!(snd.in_flight(), 1000);
    drop(rcv);
}

#[test]
fn flavor_is_preserved_and_ids_match() {
    let (snd, rcv) = bounded_with_flavor::<u64>(2, ChannelFlavor::Cyclic);
    assert_eq!(snd.query_flavor(), ChannelFlavor::Cyclic);
    assert_eq!(rcv.query_flavor(), ChannelFlavor::Cyclic);
    assert_eq!(snd.channel_id(), rcv.channel_id());

    let (snd2, _rcv2) = bounded::<u64>(2);
    assert_eq!(snd2.query_flavor(), ChannelFlavor::Unknown);
}

#[test]
fn events_flow_to_the_log_stream() {
    let (mut snd, mut rcv) = bounded::<u64>(1);
    let (log_tx, log_rx) = log_stream();
    let log_tx2 = dam_channels::logging::share_log_handle(&log_tx);
    let producer = LocalClock::new(Time::new(4));
    let consumer = LocalClock::new(Time::new(4));
    snd.attach_sender(&producer.view_handle());
    rcv.attach_receiver(&consumer.view_handle());
    snd.attach_logger(log_tx);
    rcv.attach_logger(log_tx2);

    let id = snd.channel_id();
    assert_eq!(snd.send(ChannelElement::new(Time::new(4), 9)), Ok(()));
    assert!(matches!(rcv.recv(), Recv::Something(_)));

    let mut batch = Vec::new();
    let status = collect_batch(&log_rx, &mut batch, 100);
    assert_eq!(status, BatchStatus::Drained);
    assert_eq!(
        batch,
        vec![
            LogEntry::FromSender(SendEvent::Sent(id)),
            LogEntry::FromReceiver(ReceiverEvent::Peek(id)),
            LogEntry::FromReceiver(ReceiverEvent::Recv(id)),
        ]
    );
}

#[test]
fn full_channel_emits_len_event() {
    let (mut snd, mut rcv) = bounded::<u64>(1);
    let (log_tx, log_rx) = log_stream();
    let producer = LocalClock::new(Time::new(3));
    let consumer = LocalClock::new(Time::new(3));
    snd.attach_sender(&producer.view_handle());
    snd.attach_logger(log_tx);
    // Attach the receiver's clock so the refused send's wait returns at once.
    rcv.attach_receiver(&consumer.view_handle());

    let id = snd.channel_id();
    assert_eq!(snd.send(ChannelElement::new(Time::new(3), 1)), Ok(()));
    let refused = snd.send(ChannelElement::new(Time::new(3), 2));
    assert!(refused.is_err());

    let mut batch = Vec::new();
    let _ = collect_batch(&log_rx, &mut batch, 100);
    assert_eq!(batch.len(), 2);
    assert_eq!(batch[0], LogEntry::FromSender(SendEvent::Sent(id)));
    assert_eq!(batch[1], LogEntry::FromSender(SendEvent::Len(id, 1)));
}

#[test]
fn collect_batch_respects_its_limit() {
    let (mut snd, _rcv) = bounded::<u64>(8);
    let clock = LocalClock::new(Time::new(1));
    snd.attach_sender(&clock.view_handle());
    let (log_tx, log_rx) = log_stream();
    snd.attach_logger(log_tx);
    for i in 0..5u64 {
        assert_eq!(snd.send(ChannelElement::new(Time::new(1), i)), Ok(()));
    }
    let mut batch = Vec::new();
    let status = collect_batch(&log_rx, &mut batch, 2);
    assert_eq!(status, BatchStatus::MoreQueued);
    assert_eq!(batch.len(), 2);
    let status = collect_batch(&log_rx, &mut batch, 100);
    assert_eq!(status, BatchStatus::Drained);
    assert_eq!(batch.len(), 5);
}

#[test]
fn collect_batch_sees_closed_source() {
    let (log_tx, log_rx) = log_stream();
    drop(log_tx);
    let mut batch = Vec::new();
    let status = collect_batch(&log_rx, &mut batch, 10);
    assert_eq!(status, BatchStatus::SourceClosed);
    assert!(batch.is_empty());
}

#[test]
fn error_messages_read_as_documented() {
    let d = dam_channels::channel::DequeueError {};
    let e = dam_channels::channel::EnqueueError {};
    assert_eq!(d.message(), "Attempted to dequeue from simulation-closed channel!");
    assert_eq!(e.message(), "Attempted to enqueue to a simulation-closed channel!");
}

#[test]
fn recv_on_empty_returns_nothing_and_consumes_nothing() {
    let (mut snd, mut rcv) = bounded::<u64>(2);
    let producer = LocalClock::new(Time::new(8));
    let consumer = LocalClock::new(Time::new(5));
    snd.attach_sender(&producer.view_handle());
    rcv.attach_receiver(&consumer.view_handle());

    assert_eq!(rcv.recv(), Recv::Nothing(Time::new(8)));
    assert_eq!(rcv.in_flight(), 0);
    // The promise is still good for the unchanged receiver clock.
    assert_eq!(rcv.peek(), Recv::Nothing(Time::new(8)));
}

#[test]
fn caller_supplied_ids_are_kept_and_distinct() {
    let (snd_a, rcv_a) = bounded_with_id::<u64>(2, ChannelFlavor::Acyclic, ChannelID::new(1));
    let (snd_b, rcv_b) = bounded_with_id::<u64>(2, ChannelFlavor::Cyclic, ChannelID::new(2));
    assert_eq!(snd_a.channel_id(), ChannelID::new(1));
    assert_eq!(rcv_a.channel_id(), ChannelID::new(1));
    assert_eq!(snd_b.channel_id(), ChannelID::new(2));
    assert_eq!(rcv_b.channel_id(), ChannelID::new(2));
    assert_ne!(snd_a.channel_id(), snd_b.channel_id());
    assert_eq!(snd_a.query_flavor(), ChannelFlavor::Acyclic);
    assert_eq!(snd_b.query_flavor(), ChannelFlavor::Cyclic);
}
