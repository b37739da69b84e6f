//! The strict-alternation request/reply roles.
//!
//! The request/reply socket pairing requires sends and receives to strictly
//! alternate per connection — violating the alternation is a transport-level
//! protocol error. These two roles make the violation inexpressible:
//! completing a send consumes the [`RequestSender`] and yields the only
//! [`RequestReceiver`], and completing a receive consumes that and yields a
//! fresh sender. The operation needed to send twice in a row, or to receive
//! twice in a row, does not exist on the object the caller holds.
//!
//! A failed operation hands an equivalent role back, so the caller keeps the
//! choice to retry, reset or tear down.

use vstd::prelude::*;

use crate::error::TmqError;
use crate::message::Multipart;
use crate::poll::{flush_post, multipart_flush, multipart_recv, recv_post, PollRecv, PollSend};
use crate::sim::SimSocket;
use crate::wire::wire_ok;

verus! {

/// Outcome of a request send. Only a completed send yields the receiver.
pub enum SendRequest {
    /// The whole request is on the wire; the exchange may now only receive.
    Sent(RequestReceiver),
    /// The transport could not take the first frame; the sender comes back
    /// holding the request, to be resumed when writable.
    Blocked(RequestSender),
    /// The send failed; the sender comes back holding whatever frames were
    /// not written, and the error says whether the request was interrupted
    /// mid-stream.
    Failed(RequestSender, TmqError),
}

/// Outcome of a reply receive. Only a completed receive yields the sender.
pub enum RecvReply {
    /// A whole reply arrived; the exchange may now only send.
    Received(Multipart, RequestSender),
    /// Nothing to receive yet; the receiver comes back unchanged.
    Blocked(RequestReceiver),
    /// The receive failed; the receiver comes back unchanged.
    Failed(RequestReceiver, TmqError),
}

/// The sending role of the pair: the only handle on which a request can be
/// submitted.
pub struct RequestSender {
    buffer: Multipart,
}

impl RequestSender {
    /// The frames of a request accepted but not yet fully on the wire.
    pub closed spec fn pending(&self) -> Seq<Seq<u8>> {
        self.buffer@
    }

    /// Creates the initial sender for the request-initiating side.
    pub fn new() -> (s: RequestSender)
        ensures
            s.pending().len() == 0,
    {
        RequestSender { buffer: Multipart::new() }
    }

    /// Sends one request, consuming this role. On completion the returned
    /// receiver is the only handle left, so a second send cannot follow
    /// without a reply in between.
    pub fn send(self, sock: &mut SimSocket, msg: Multipart) -> (r: SendRequest)
        requires
            self.pending().len() == 0,
        ensures
            final(sock).cap() == old(sock).cap(),
            final(sock).fault_code() == old(sock).fault_code(),
            match r {
                SendRequest::Sent(_) => flush_post(
                    old(sock)@,
                    msg@,
                    old(sock).cap(),
                    old(sock).fault_code(),
                    final(sock)@,
                    Seq::<Seq<u8>>::empty(),
                    PollSend::Ready,
                ),
                SendRequest::Blocked(s) => flush_post(
                    old(sock)@,
                    msg@,
                    old(sock).cap(),
                    old(sock).fault_code(),
                    final(sock)@,
                    s.pending(),
                    PollSend::Pending,
                ),
                SendRequest::Failed(s, e) => flush_post(
                    old(sock)@,
                    msg@,
                    old(sock).cap(),
                    old(sock).fault_code(),
                    final(sock)@,
                    s.pending(),
                    PollSend::Failed(e),
                ),
            },
    {
        let mut me = self;
        me.buffer = msg;
        me.resume(sock)
    }

    /// Resumes a blocked send, consuming this role as `send` does.
    pub fn resume(self, sock: &mut SimSocket) -> (r: SendRequest)
        ensures
            final(sock).cap() == old(sock).cap(),
            final(sock).fault_code() == old(sock).fault_code(),
            match r {
                SendRequest::Sent(_) => flush_post(
                    old(sock)@,
                    self.pending(),
                    old(sock).cap(),
                    old(sock).fault_code(),
                    final(sock)@,
                    Seq::<Seq<u8>>::empty(),
                    PollSend::Ready,
                ),
                SendRequest::Blocked(s) => flush_post(
                    old(sock)@,
                    self.pending(),
                    old(sock).cap(),
                    old(sock).fault_code(),
                    final(sock)@,
                    s.pending(),
                    PollSend::Pending,
                ),
                SendRequest::Failed(s, e) => flush_post(
                    old(sock)@,
                    self.pending(),
                    old(sock).cap(),
                    old(sock).fault_code(),
                    final(sock)@,
                    s.pending(),
                    PollSend::Failed(e),
                ),
            },
    {
        let mut me = self;
        match multipart_flush(sock, &mut me.buffer) {
            PollSend::Ready => {
                proof {
                    assert(me.buffer@ =~= Seq::<Seq<u8>>::empty());
                }
                SendRequest::Sent(RequestReceiver {  })
            }
            PollSend::Pending => SendRequest::Blocked(me),
            PollSend::Failed(e) => SendRequest::Failed(me, e),
        }
    }
}

/// The receiving role of the pair: the only handle on which the reply can
/// be taken.
pub struct RequestReceiver {}

impl RequestReceiver {
    /// Creates the initial receiver for the reply-initiating side.
    pub fn new() -> (r: RequestReceiver) {
        RequestReceiver {  }
    }

    /// Receives one whole reply, consuming this role. On completion the
    /// returned sender is the only handle left, so a second receive cannot
    /// follow without a send in between.
    pub fn recv(self, sock: &mut SimSocket) -> (r: RecvReply)
        requires
            wire_ok(old(sock)@),
        ensures
            final(sock).cap() == old(sock).cap(),
            final(sock).fault_code() == old(sock).fault_code(),
            match r {
                RecvReply::Received(m, s) => {
                    &&& recv_post(
                        old(sock)@,
                        old(sock).fault_code(),
                        final(sock)@,
                        PollRecv::Ready(m),
                    )
                    &&& s.pending().len() == 0
                },
                RecvReply::Blocked(_) => recv_post(
                    old(sock)@,
                    old(sock).fault_code(),
                    final(sock)@,
                    PollRecv::Pending,
                ),
                RecvReply::Failed(_, e) => recv_post(
                    old(sock)@,
                    old(sock).fault_code(),
                    final(sock)@,
                    PollRecv::Failed(e),
                ),
            },
    {
        match multipart_recv(sock) {
            PollRecv::Ready(m) => RecvReply::Received(m, RequestSender::new()),
            PollRecv::Pending => RecvReply::Blocked(self),
            PollRecv::Failed(e) => RecvReply::Failed(self, e),
        }
    }
}

} // verus!
