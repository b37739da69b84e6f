use tmq::{
    multipart_flush, multipart_recv, multipart_recv_buffered, multipart_send, Multipart,
    PollRecv, PollSend, ReceiverBuffer, SimSocket, TmqError,
};

fn mp(frames: &[&str]) -> Multipart {
    Multipart::from_frames(frames.iter().map(|f| f.as_bytes().to_vec()).collect())
}

fn recv_ok(sock: &mut SimSocket) -> Multipart {
    match multipart_recv(sock) {
        PollRecv::Ready(m) => m,
        PollRecv::Pending => panic!("receive suspended"),
        PollRecv::Failed(e) => panic!("receive failed: {:?}", e),
    }
}

#[test]
fn recv_on_empty_wire_is_pending() {
    let mut sock = SimSocket::new(16);
    assert!(!sock.readable());
    assert!(matches!(multipart_recv(&mut sock), PollRecv::Pending));
}

#[test]
fn recv_assembles_whole_multipart() {
    let mut sock = SimSocket::new(16);
    let mut out = mp(&["a", "bc"]);
    assert_eq!(multipart_send(&mut sock, &mut out), PollSend::Ready);
    assert!(out.is_empty());
    let got = recv_ok(&mut sock);
    assert_eq!(got.len(), 2);
    assert_eq!(got.get(0).as_slice(), b"a");
    assert_eq!(got.get(1).as_slice(), b"bc");
    // atomicity: nothing of the message is left behind
    assert!(matches!(multipart_recv(&mut sock), PollRecv::Pending));
}

#[test]
fn recv_leaves_later_messages_untouched() {
    let mut sock = SimSocket::new(16);
    multipart_send(&mut sock, &mut mp(&["first", "msg"]));
    multipart_send(&mut sock, &mut mp(&["second"]));
    assert_eq!(recv_ok(&mut sock), mp(&["first", "msg"]));
    assert_eq!(recv_ok(&mut sock), mp(&["second"]));
}

#[test]
fn send_order_is_preserved() {
    let mut sock = SimSocket::new(1024);
    for i in 0..100u32 {
        let msg = format!("msg {}", i);
        assert_eq!(multipart_send(&mut sock, &mut mp(&[&msg, "tail"])), PollSend::Ready);
    }
    for i in 0..100u32 {
        let msg = format!("msg {}", i);
        assert_eq!(recv_ok(&mut sock), mp(&[&msg, "tail"]));
    }
    assert!(matches!(multipart_recv(&mut sock), PollRecv::Pending));
}

#[test]
fn send_empty_buffer_succeeds_without_io() {
    let mut sock = SimSocket::new(0);
    let mut empty = Multipart::new();
    assert_eq!(multipart_send(&mut sock, &mut empty), PollSend::Ready);
    assert_eq!(multipart_flush(&mut sock, &mut empty), PollSend::Ready);
}

#[test]
fn send_blocked_before_first_frame_is_pending() {
    // a full wire refuses the very first frame: suspend, no error, nothing lost
    let mut sock = SimSocket::new(1);
    multipart_send(&mut sock, &mut mp(&["fill"]));
    assert!(!sock.writable());
    let mut out = mp(&["hello", "world"]);
    assert_eq!(multipart_send(&mut sock, &mut out), PollSend::Pending);
    assert_eq!(out, mp(&["hello", "world"]));
    assert_eq!(multipart_flush(&mut sock, &mut out), PollSend::Pending);
    assert_eq!(out, mp(&["hello", "world"]));
}

#[test]
fn send_interrupted_after_first_frame_is_distinguished() {
    // room for one of two frames: the send is cut off mid-message and must
    // surface the interrupted-send error, not the generic failure
    let mut sock = SimSocket::new(1);
    let mut out = mp(&["hello", "world"]);
    assert_eq!(
        multipart_send(&mut sock, &mut out),
        PollSend::Failed(TmqError::InterruptedSend)
    );
    // the refused frame is back at the front, nothing lost
    assert_eq!(out, mp(&["world"]));
}

#[test]
fn flush_interrupted_mid_message() {
    let mut sock = SimSocket::new(2);
    let mut out = mp(&["a", "b", "c"]);
    assert_eq!(
        multipart_flush(&mut sock, &mut out),
        PollSend::Failed(TmqError::InterruptedSend)
    );
    assert_eq!(out, mp(&["c"]));
}

#[test]
fn transport_fault_surfaces_as_zmq_error() {
    let mut sock = SimSocket::new(16);
    sock.inject_fault(156384765);
    assert!(matches!(
        multipart_recv(&mut sock),
        PollRecv::Failed(TmqError::Zmq(156384765))
    ));
    let mut out = mp(&["hello"]);
    assert_eq!(
        multipart_send(&mut sock, &mut out),
        PollSend::Failed(TmqError::Zmq(156384765))
    );
}

#[test]
fn error_variants_are_distinct() {
    assert_ne!(TmqError::Zmq(1), TmqError::Io(1));
    assert_ne!(TmqError::Zmq(11), TmqError::InterruptedSend);
    assert_ne!(TmqError::Io(11), TmqError::InterruptedSend);
    assert_eq!(TmqError::InterruptedSend, TmqError::InterruptedSend);
}

#[test]
fn buffered_recv_pops_buffer_before_io() {
    let mut sock = SimSocket::new(64);
    let mut rbuf = ReceiverBuffer::new(4);
    for label in ["one", "two", "three"] {
        multipart_send(&mut sock, &mut mp(&[label]));
    }
    match multipart_recv_buffered(&mut sock, &mut rbuf) {
        PollRecv::Ready(m) => assert_eq!(m, mp(&["one"])),
        other => panic!("expected a message, got {:?}", other),
    }
    // the wire was drained into the buffer; later polls do no I/O
    assert!(!sock.readable());
    match multipart_recv_buffered(&mut sock, &mut rbuf) {
        PollRecv::Ready(m) => assert_eq!(m, mp(&["two"])),
        other => panic!("expected a message, got {:?}", other),
    }
    match multipart_recv_buffered(&mut sock, &mut rbuf) {
        PollRecv::Ready(m) => assert_eq!(m, mp(&["three"])),
        other => panic!("expected a message, got {:?}", other),
    }
    assert!(matches!(
        multipart_recv_buffered(&mut sock, &mut rbuf),
        PollRecv::Pending
    ));
}

#[test]
fn buffered_recv_respects_capacity() {
    // five messages on the wire, capacity three: one is delivered, two stay
    // buffered, and the last two remain on the wire for the next poll
    let mut sock = SimSocket::new(64);
    let mut rbuf = ReceiverBuffer::new(3);
    for i in 0..5u32 {
        let label = format!("m{}", i);
        multipart_send(&mut sock, &mut mp(&[&label]));
    }
    match multipart_recv_buffered(&mut sock, &mut rbuf) {
        PollRecv::Ready(m) => assert_eq!(m, mp(&["m0"])),
        other => panic!("expected a message, got {:?}", other),
    }
    assert!(!rbuf.is_full());
    assert!(sock.readable());
    // drain the rest in order
    for i in 1..5u32 {
        let label = format!("m{}", i);
        match multipart_recv_buffered(&mut sock, &mut rbuf) {
            PollRecv::Ready(m) => assert_eq!(m, mp(&[&label])),
            other => panic!("expected a message, got {:?}", other),
        }
    }
    assert!(matches!(
        multipart_recv_buffered(&mut sock, &mut rbuf),
        PollRecv::Pending
    ));
}

#[test]
fn receiver_buffer_is_bounded_fifo() {
    let mut b = ReceiverBuffer::new(2);
    assert!(b.is_empty());
    assert!(!b.is_full());
    b.push_back(mp(&["x"]));
    b.push_back(mp(&["y"]));
    assert!(b.is_full());
    assert_eq!(b.pop_front(), Some(mp(&["x"])));
    assert_eq!(b.pop_front(), Some(mp(&["y"])));
    assert_eq!(b.pop_front(), None);
}
