use tmq::rep::{Phase as RepPhase, Rep, RepPoll};
use tmq::req::{Phase as ReqPhase, Req, ReqPoll, StreamEvent};
use tmq::{
    Multipart, PollSend, RecvReply, RequestReceiver, RequestSender, SendRequest, Sender,
    SimSocket,
};

fn mp(frames: &[&str]) -> Multipart {
    Multipart::from_frames(frames.iter().map(|f| f.as_bytes().to_vec()).collect())
}

fn send_all(sock: &mut SimSocket, msg: Multipart) {
    let mut sender = Sender::new();
    sender.start_send(msg);
    assert_eq!(sender.poll_flush(sock), PollSend::Ready);
}

#[test]
fn single_message() {
    // one request/reply exchange through the role pair: completing the send
    // yields the only receiver, completing the receive yields a sender again
    let mut c2s = SimSocket::new(64);
    let mut s2c = SimSocket::new(64);
    let client = RequestSender::new();
    let client = match client.send(&mut c2s, mp(&["single_message"])) {
        SendRequest::Sent(receiver) => receiver,
        _ => panic!("request did not go out"),
    };
    // the server side: receive the request, send it back
    let server = RequestReceiver::new();
    let (request, server) = match server.recv(&mut c2s) {
        RecvReply::Received(m, sender) => (m, sender),
        _ => panic!("request did not arrive"),
    };
    assert_eq!(request, mp(&["single_message"]));
    match server.send(&mut s2c, request) {
        SendRequest::Sent(_) => {}
        _ => panic!("reply did not go out"),
    }
    // back on the client: the reply arrives and a sender comes back
    let (reply, _client) = match client.recv(&mut s2c) {
        RecvReply::Received(m, sender) => (m, sender),
        _ => panic!("reply did not arrive"),
    };
    assert_eq!(reply, mp(&["single_message"]));
}

#[test]
fn hammer_reply() {
    let mut c2s = SimSocket::new(64);
    let mut s2c = SimSocket::new(64);
    let mut client = RequestSender::new();
    let mut server = RequestReceiver::new();
    for i in 0..1000u32 {
        let text = format!("single_message {}", i);
        let client_rx = match client.send(&mut c2s, mp(&[&text])) {
            SendRequest::Sent(receiver) => receiver,
            _ => panic!("request did not go out"),
        };
        let (request, server_tx) = match server.recv(&mut c2s) {
            RecvReply::Received(m, sender) => (m, sender),
            _ => panic!("request did not arrive"),
        };
        assert_eq!(request, mp(&[&text]));
        server = match server_tx.send(&mut s2c, request) {
            SendRequest::Sent(receiver) => receiver,
            _ => panic!("reply did not go out"),
        };
        let (reply, client_tx) = match client_rx.recv(&mut s2c) {
            RecvReply::Received(m, sender) => (m, sender),
            _ => panic!("reply did not arrive"),
        };
        assert_eq!(reply, mp(&[&text]));
        client = client_tx;
    }
}

#[test]
fn blocked_request_resumes() {
    // a full wire blocks the request before any frame; the sender comes
    // back holding it and resumes to completion once there is room
    let mut c2s = SimSocket::new(1);
    send_all(&mut c2s, mp(&["fill"]));
    let client = RequestSender::new();
    let blocked = match client.send(&mut c2s, mp(&["request"])) {
        SendRequest::Blocked(sender) => sender,
        _ => panic!("expected the send to block"),
    };
    // drain the wire, then resume
    let consumer = RequestReceiver::new();
    let (fill, _) = match consumer.recv(&mut c2s) {
        RecvReply::Received(m, sender) => (m, sender),
        _ => panic!("fill message missing"),
    };
    assert_eq!(fill, mp(&["fill"]));
    match blocked.resume(&mut c2s) {
        SendRequest::Sent(_) => {}
        _ => panic!("resume did not complete"),
    }
}

#[test]
fn request_single_message() {
    // the runtime-state requester: stream item, send, then exactly one reply
    let mut c2s = SimSocket::new(64);
    let mut s2c = SimSocket::new(64);
    let mut requester = Req::new();
    assert!(matches!(
        requester.on_stream(StreamEvent::Item(mp(&["Msg", "Msg (contd.)"]))),
        ReqPoll::Pending
    ));
    assert!(matches!(requester.poll_send(&mut c2s), ReqPoll::Pending));
    // a reply is now awaited; none has arrived yet
    assert!(matches!(requester.poll_recv(&mut s2c), ReqPoll::Pending));
    // the peer echoes the request
    let mut responder = Rep::new();
    let request = match responder.poll_recv(&mut c2s) {
        RepPoll::Request(m) => m,
        other => panic!("Reply is missing: {:?}", other),
    };
    assert_eq!(request, mp(&["Msg", "Msg (contd.)"]));
    responder.on_reply(request);
    assert!(matches!(responder.poll_send(&mut s2c), RepPoll::Pending));
    match requester.poll_recv(&mut s2c) {
        ReqPoll::Reply(m) => assert_eq!(m, mp(&["Msg", "Msg (contd.)"])),
        other => panic!("Reply is missing: {:?}", other),
    }
}

#[test]
fn request_hammer() {
    let mut c2s = SimSocket::new(64);
    let mut s2c = SimSocket::new(64);
    let mut requester = Req::new();
    let mut responder = Rep::new();
    for i in 0..1000 {
        let first = format!("Msg #{}", i);
        let second = format!("Msg #{} (contd.)", i);
        assert!(matches!(
            requester.on_stream(StreamEvent::Item(mp(&[&first, &second]))),
            ReqPoll::Pending
        ));
        assert!(matches!(requester.poll_send(&mut c2s), ReqPoll::Pending));
        let request = match responder.poll_recv(&mut c2s) {
            RepPoll::Request(m) => m,
            other => panic!("request missing: {:?}", other),
        };
        assert_eq!(request, mp(&[&first, &second]));
        responder.on_reply(request);
        assert!(matches!(responder.poll_send(&mut s2c), RepPoll::Pending));
        match requester.poll_recv(&mut s2c) {
            ReqPoll::Reply(m) => assert_eq!(m, mp(&[&first, &second])),
            other => panic!("reply missing: {:?}", other),
        }
    }
}

#[test]
fn requester_phase_dispatch() {
    // a driver routes each poll through the machine's observable phase, the
    // way the original single poll entry dispatched on its state
    let mut c2s = SimSocket::new(64);
    let mut s2c = SimSocket::new(64);
    let mut requester = Req::new();
    let mut responder = Rep::new();
    let mut queue = vec![mp(&["second"]), mp(&["first"])];
    let mut got: Vec<Multipart> = Vec::new();
    let mut rounds: u32 = 0;
    loop {
        rounds += 1;
        assert!(rounds < 100, "driver did not settle");
        match requester.phase() {
            ReqPhase::BeginSend => match queue.pop() {
                Some(m) => {
                    let _ = requester.on_stream(StreamEvent::Item(m));
                }
                None => {
                    assert!(matches!(requester.on_stream(StreamEvent::End), ReqPoll::Finished));
                    break;
                }
            },
            ReqPhase::Sending => {
                let _ = requester.poll_send(&mut c2s);
            }
            ReqPhase::Receiving => {
                if responder.phase() == RepPhase::Receiving {
                    if let RepPoll::Request(m) = responder.poll_recv(&mut c2s) {
                        responder.on_reply(m);
                    }
                }
                if responder.phase() == RepPhase::Sending {
                    let _ = responder.poll_send(&mut s2c);
                }
                if let ReqPoll::Reply(m) = requester.poll_recv(&mut s2c) {
                    got.push(m);
                }
            }
            ReqPhase::InPoll => break,
        }
    }
    assert_eq!(got, vec![mp(&["first"]), mp(&["second"])]);
}

#[test]
fn requester_finishes_with_stream() {
    let mut requester = Req::new();
    assert!(matches!(requester.on_stream(StreamEvent::Pending), ReqPoll::Pending));
    assert!(matches!(requester.on_stream(StreamEvent::End), ReqPoll::Finished));
}
