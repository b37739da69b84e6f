use tmq::{
    BufferedReceiver, Multipart, PollRecv, PollSend, Pub, Receiver, SendReceiveWrapper, Sender,
    SenderReceiver, SimSocket,
};

fn mp(frames: &[&str]) -> Multipart {
    Multipart::from_frames(frames.iter().map(|f| f.as_bytes().to_vec()).collect())
}

fn send_all(sender: &mut Sender, sock: &mut SimSocket, msg: Multipart) {
    sender.start_send(msg);
    assert_eq!(sender.poll_flush(sock), PollSend::Ready);
}

fn next(receiver: &mut Receiver, sock: &mut SimSocket) -> Multipart {
    match receiver.poll_next(sock) {
        PollRecv::Ready(m) => m,
        other => panic!("expected a message, got {:?}", other),
    }
}

#[test]
fn round_trip_two_frames() {
    // producer submits ["a", "bc"]; the consumer on the peer endpoint
    // observes exactly that: length 2, frame 0 = "a", frame 1 = "bc"
    let mut wire = SimSocket::new(64);
    let mut producer = Sender::new();
    let mut consumer = Receiver::new();
    send_all(&mut producer, &mut wire, mp(&["a", "bc"]));
    let got = next(&mut consumer, &mut wire);
    assert_eq!(got.len(), 2);
    assert_eq!(got.get(0).as_slice(), b"a");
    assert_eq!(got.get(1).as_slice(), b"bc");
}

#[test]
fn send_single_message() {
    let mut wire = SimSocket::new(64);
    let mut producer = Sender::new();
    let mut consumer = Receiver::new();
    send_all(&mut producer, &mut wire, mp(&["hello", "world"]));
    assert_eq!(next(&mut consumer, &mut wire), mp(&["hello", "world"]));
}

#[test]
fn send_multiple_messages() {
    let mut wire = SimSocket::new(64);
    let mut producer = Sender::new();
    let mut consumer = Receiver::new();
    send_all(&mut producer, &mut wire, mp(&["hello", "world"]));
    send_all(&mut producer, &mut wire, mp(&["second", "message"]));
    send_all(&mut producer, &mut wire, mp(&["third"]));
    assert_eq!(next(&mut consumer, &mut wire), mp(&["hello", "world"]));
    assert_eq!(next(&mut consumer, &mut wire), mp(&["second", "message"]));
    assert_eq!(next(&mut consumer, &mut wire), mp(&["third"]));
}

#[test]
fn send_empty_message() {
    // an empty submission is a no-op: the consumer observes exactly one
    // multipart, the non-empty one
    let mut wire = SimSocket::new(64);
    let mut producer = Sender::new();
    let mut consumer = Receiver::new();
    send_all(&mut producer, &mut wire, Multipart::new());
    send_all(&mut producer, &mut wire, mp(&["hello", "world"]));
    assert_eq!(next(&mut consumer, &mut wire), mp(&["hello", "world"]));
    assert!(matches!(consumer.poll_next(&mut wire), PollRecv::Pending));
}

#[test]
fn send_hammer() {
    let mut wire = SimSocket::new(4096);
    let mut producer = Sender::new();
    let mut consumer = Receiver::new();
    for _ in 0..1000 {
        send_all(&mut producer, &mut wire, mp(&["hello", "world"]));
        assert_eq!(next(&mut consumer, &mut wire), mp(&["hello", "world"]));
    }
}

#[test]
fn proxy_sequence() {
    // a long ordered sequence of two-frame messages arrives in order
    let mut wire = SimSocket::new(1 << 16);
    let mut producer = Sender::new();
    let mut consumer = Receiver::new();
    for i in 0..1000 {
        let first = format!("Msg #{}", i);
        let second = format!("Msg #{} (contd.)", i);
        send_all(&mut producer, &mut wire, mp(&[&first, &second]));
    }
    for i in 0..1000 {
        let first = format!("Msg #{}", i);
        let second = format!("Msg #{} (contd.)", i);
        assert_eq!(next(&mut consumer, &mut wire), mp(&[&first, &second]));
    }
}

#[test]
fn proxy_interleaved() {
    let mut wire = SimSocket::new(1 << 16);
    let mut producer = Sender::new();
    let mut consumer = Receiver::new();
    for i in 0..1000 {
        let first = format!("Msg #{}", i);
        let second = format!("Msg #{} (contd.)", i);
        send_all(&mut producer, &mut wire, mp(&[&first, &second]));
        assert_eq!(next(&mut consumer, &mut wire), mp(&[&first, &second]));
    }
}

#[test]
fn receive_delayed() {
    // nothing on the wire yet: the consumer suspends, and sees the message
    // only once the producer has submitted it
    let mut wire = SimSocket::new(64);
    let mut producer = Sender::new();
    let mut consumer = Receiver::new();
    assert!(matches!(consumer.poll_next(&mut wire), PollRecv::Pending));
    send_all(&mut producer, &mut wire, mp(&["hello", "world"]));
    assert_eq!(next(&mut consumer, &mut wire), mp(&["hello", "world"]));
}

#[test]
fn send_delayed() {
    // the wire starts full: the producer suspends without writing, and
    // completes once room appears
    let mut wire = SimSocket::new(2);
    let mut blocker = Sender::new();
    send_all(&mut blocker, &mut wire, mp(&["fill", "er"]));
    let mut producer = Sender::new();
    producer.start_send(mp(&["hello", "world"]));
    assert_eq!(producer.poll_flush(&mut wire), PollSend::Pending);
    // the peer drains the wire; room appears only after that
    let mut consumer = Receiver::new();
    assert_eq!(next(&mut consumer, &mut wire), mp(&["fill", "er"]));
    assert_eq!(producer.poll_flush(&mut wire), PollSend::Ready);
    assert_eq!(next(&mut consumer, &mut wire), mp(&["hello", "world"]));
}

#[test]
fn receive_buffered_hammer() {
    let mut wire = SimSocket::new(1 << 14);
    let mut producer = Sender::new();
    let mut consumer = BufferedReceiver::new(1024);
    for i in 0..2000u32 {
        let label = format!("m{}", i);
        send_all(&mut producer, &mut wire, mp(&[&label]));
    }
    for i in 0..2000u32 {
        let label = format!("m{}", i);
        match consumer.poll_next(&mut wire) {
            PollRecv::Ready(m) => assert_eq!(m, mp(&[&label])),
            other => panic!("expected a message, got {:?}", other),
        }
    }
    assert!(matches!(consumer.poll_next(&mut wire), PollRecv::Pending));
}

#[test]
fn publish_send_single_message() {
    // the publisher accepts submissions eagerly and drains them in order
    let mut wire = SimSocket::new(1 << 14);
    let mut publisher = Pub::new();
    let mut consumer = Receiver::new();
    for _ in 0..1000 {
        publisher.start_send(mp(&["topic2", "hello", "world"]));
    }
    let mut polls: u32 = 0;
    while publisher.poll_complete(&mut wire) != PollSend::Ready {
        polls += 1;
        assert!(polls <= 1001, "publisher never drained");
    }
    for _ in 0..1000 {
        assert_eq!(next(&mut consumer, &mut wire), mp(&["topic2", "hello", "world"]));
    }
    assert!(matches!(consumer.poll_next(&mut wire), PollRecv::Pending));
}

#[test]
fn receiver_buffered_conversion() {
    let mut wire = SimSocket::new(64);
    let mut producer = Sender::new();
    send_all(&mut producer, &mut wire, mp(&["hello", "world"]));
    let mut buffered = Receiver::new().buffered(8);
    match buffered.poll_next(&mut wire) {
        PollRecv::Ready(m) => assert_eq!(m, mp(&["hello", "world"])),
        other => panic!("expected a message, got {:?}", other),
    }
}

#[test]
fn shared_read_half_buffered() {
    let mut in_wire = SimSocket::new(64);
    let mut peer = Sender::new();
    send_all(&mut peer, &mut in_wire, mp(&["hello"]));
    send_all(&mut peer, &mut in_wire, mp(&["world"]));
    let (read_half, _write_half) = SendReceiveWrapper::new().split();
    let mut buffered = read_half.buffered(4);
    match buffered.poll_next(&mut in_wire) {
        PollRecv::Ready(m) => assert_eq!(m, mp(&["hello"])),
        other => panic!("expected a message, got {:?}", other),
    }
    match buffered.poll_next(&mut in_wire) {
        PollRecv::Ready(m) => assert_eq!(m, mp(&["world"])),
        other => panic!("expected a message, got {:?}", other),
    }
}

#[test]
fn echo() {
    // a combined endpoint on each side of a bidirectional link
    let mut c2s = SimSocket::new(256);
    let mut s2c = SimSocket::new(256);
    let mut client = SenderReceiver::new();
    let mut server = SenderReceiver::new();
    for _ in 0..100 {
        client.start_send(mp(&["hello", "from", "client"]));
        assert_eq!(client.poll_flush(&mut c2s), PollSend::Ready);
        let request = match server.poll_next(&mut c2s) {
            PollRecv::Ready(m) => m,
            other => panic!("expected a request, got {:?}", other),
        };
        server.start_send(request);
        assert_eq!(server.poll_flush(&mut s2c), PollSend::Ready);
        match client.poll_next(&mut s2c) {
            PollRecv::Ready(m) => assert_eq!(m, mp(&["hello", "from", "client"])),
            other => panic!("expected the echo, got {:?}", other),
        }
    }
}

#[test]
fn receive_single_message() {
    let mut wire = SimSocket::new(64);
    let mut producer = Sender::new();
    let mut consumer = Receiver::new();
    send_all(&mut producer, &mut wire, mp(&["hello", "world"]));
    assert_eq!(next(&mut consumer, &mut wire), mp(&["hello", "world"]));
}

#[test]
fn receive_multiple_messages() {
    let mut wire = SimSocket::new(64);
    let mut producer = Sender::new();
    let mut consumer = Receiver::new();
    send_all(&mut producer, &mut wire, mp(&["hello", "world"]));
    send_all(&mut producer, &mut wire, mp(&["second", "message"]));
    assert_eq!(next(&mut consumer, &mut wire), mp(&["hello", "world"]));
    assert_eq!(next(&mut consumer, &mut wire), mp(&["second", "message"]));
    assert!(matches!(consumer.poll_next(&mut wire), PollRecv::Pending));
}

#[test]
fn receive_hammer() {
    let mut wire = SimSocket::new(2048);
    let mut producer = Sender::new();
    let mut consumer = Receiver::new();
    for i in 0..1000u32 {
        let label = format!("m{}", i);
        send_all(&mut producer, &mut wire, mp(&[&label]));
    }
    for i in 0..1000u32 {
        let label = format!("m{}", i);
        assert_eq!(next(&mut consumer, &mut wire), mp(&[&label]));
    }
}

#[test]
fn subscribe_receive_single_message() {
    // the topic sits in the first frame; routing on it is the transport's
    // business, delivery of the whole multipart is this crate's
    let mut wire = SimSocket::new(64);
    let mut publisher = Pub::new();
    let mut subscriber = Receiver::new();
    publisher.start_send(mp(&["topic2", "hello", "world"]));
    while publisher.poll_complete(&mut wire) != PollSend::Ready {}
    assert_eq!(next(&mut subscriber, &mut wire), mp(&["topic2", "hello", "world"]));
}

#[test]
fn proxy() {
    // a middle endpoint forwards every message unchanged; the far consumer
    // sees the producer's sequence intact, ending with the end marker
    let mut upstream = SimSocket::new(1 << 16);
    let mut downstream = SimSocket::new(1 << 16);
    let mut producer = Sender::new();
    let mut middle = SenderReceiver::new();
    let mut consumer = Receiver::new();
    for _ in 0..10000 {
        send_all(&mut producer, &mut upstream, mp(&["hello", "from", "client"]));
        let m = match middle.poll_next(&mut upstream) {
            PollRecv::Ready(m) => m,
            other => panic!("proxy starved: {:?}", other),
        };
        middle.start_send(m);
        assert_eq!(middle.poll_flush(&mut downstream), PollSend::Ready);
        assert_eq!(next(&mut consumer, &mut downstream), mp(&["hello", "from", "client"]));
    }
    send_all(&mut producer, &mut upstream, mp(&["end"]));
    let m = match middle.poll_next(&mut upstream) {
        PollRecv::Ready(m) => m,
        other => panic!("proxy starved: {:?}", other),
    };
    middle.start_send(m);
    assert_eq!(middle.poll_flush(&mut downstream), PollSend::Ready);
    assert_eq!(next(&mut consumer, &mut downstream), mp(&["end"]));
}

#[test]
fn split_echo() {
    let mut out_wire = SimSocket::new(256);
    let mut in_wire = SimSocket::new(256);
    let combined = SendReceiveWrapper::new();
    let (mut read_half, mut write_half) = combined.split();
    let mut peer_producer = Sender::new();
    let mut peer_consumer = Receiver::new();
    for _ in 0..10 {
        write_half.start_send(mp(&["hello", "world"]));
        assert_eq!(write_half.poll_flush(&mut out_wire), PollSend::Ready);
        let got = next(&mut peer_consumer, &mut out_wire);
        send_all(&mut peer_producer, &mut in_wire, got);
        match read_half.poll_next(&mut in_wire) {
            PollRecv::Ready(m) => assert_eq!(m, mp(&["hello", "world"])),
            other => panic!("expected the echo, got {:?}", other),
        }
    }
}

#[test]
fn split_send_all() {
    // after splitting, sends on the write half interleaved with receives on
    // the read half: every sent message reaches the peer and every peer
    // message reaches the read half, each set in order
    let mut out_wire = SimSocket::new(1 << 16);
    let mut in_wire = SimSocket::new(1 << 16);
    let (mut read_half, mut write_half) = SendReceiveWrapper::new().split();
    let mut peer_producer = Sender::new();
    let mut peer_consumer = Receiver::new();
    for i in 0..1000 {
        let outgoing = format!("out #{}", i);
        write_half.start_send(mp(&[&outgoing]));
        assert_eq!(write_half.poll_flush(&mut out_wire), PollSend::Ready);
        let incoming = format!("in #{}", i);
        send_all(&mut peer_producer, &mut in_wire, mp(&[&incoming]));
    }
    for i in 0..1000 {
        let outgoing = format!("out #{}", i);
        assert_eq!(next(&mut peer_consumer, &mut out_wire), mp(&[&outgoing]));
        let incoming = format!("in #{}", i);
        match read_half.poll_next(&mut in_wire) {
            PollRecv::Ready(m) => assert_eq!(m, mp(&[&incoming])),
            other => panic!("expected a message, got {:?}", other),
        }
    }
}
