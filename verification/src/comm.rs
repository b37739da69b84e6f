//! Endpoint roles: the four usage shapes composed from the polling core — a
//! producer (`Sender`), a consumer (`Receiver`), a consumer with a bounded
//! batch buffer (`BufferedReceiver`), and a combined `SenderReceiver`.
//!
//! Each role owns exactly the buffer its shape declares and nothing else;
//! the transport socket is handed to every poll call by whoever drives the
//! endpoint. A producer follows the sink discipline: `start_send` stages one
//! multipart (only when the previous one is fully flushed) and the poll
//! operations drive it out. A consumer's `poll_next` yields whole multiparts
//! and never a partially assembled one.

use vstd::prelude::*;

use crate::message::Multipart;
use crate::poll::{
    flush_post, multipart_flush, multipart_recv, multipart_recv_buffered, recv_buffered_post,
    recv_post, PollRecv, PollSend, ReceiverBuffer,
};
use crate::sim::SimSocket;
use crate::wire::wire_ok;

verus! {

/// Sends multiparts; owns the outbound buffer being drained.
pub struct Sender {
    buffer: Multipart,
}

impl Sender {
    /// The frames staged for sending but not yet on the wire.
    pub closed spec fn pending(&self) -> Seq<Seq<u8>> {
        self.buffer@
    }

    /// Creates a sender with nothing staged.
    pub fn new() -> (s: Sender)
        ensures
            s.pending().len() == 0,
    {
        Sender { buffer: Multipart::new() }
    }

    /// Stages one multipart for sending. The previous one must have been
    /// flushed out completely first.
    pub fn start_send(&mut self, item: Multipart)
        requires
            old(self).pending().len() == 0,
        ensures
            final(self).pending() == item@,
    {
        self.buffer = item;
    }

    /// Drives the staged multipart out; ready once nothing remains staged.
    pub fn poll_ready(&mut self, sock: &mut SimSocket) -> (r: PollSend)
        ensures
            final(sock).cap() == old(sock).cap(),
            final(sock).fault_code() == old(sock).fault_code(),
            flush_post(
                old(sock)@,
                old(self).pending(),
                old(sock).cap(),
                old(sock).fault_code(),
                final(sock)@,
                final(self).pending(),
                r,
            ),
    {
        multipart_flush(sock, &mut self.buffer)
    }

    /// Flushes the staged multipart to completion.
    pub fn poll_flush(&mut self, sock: &mut SimSocket) -> (r: PollSend)
        ensures
            final(sock).cap() == old(sock).cap(),
            final(sock).fault_code() == old(sock).fault_code(),
            flush_post(
                old(sock)@,
                old(self).pending(),
                old(sock).cap(),
                old(sock).fault_code(),
                final(sock)@,
                final(self).pending(),
                r,
            ),
    {
        multipart_flush(sock, &mut self.buffer)
    }

    /// Closing a producer only means flushing what is staged.
    pub fn poll_close(&mut self, sock: &mut SimSocket) -> (r: PollSend)
        ensures
            final(sock).cap() == old(sock).cap(),
            final(sock).fault_code() == old(sock).fault_code(),
            flush_post(
                old(sock)@,
                old(self).pending(),
                old(sock).cap(),
                old(sock).fault_code(),
                final(sock)@,
                final(self).pending(),
                r,
            ),
    {
        self.poll_flush(sock)
    }
}

/// Receives whole multiparts, one per successful poll.
pub struct Receiver {}

impl Receiver {
    /// Creates a receiver.
    pub fn new() -> (r: Receiver) {
        Receiver {  }
    }

    /// Attempts to receive the next whole multipart.
    pub fn poll_next(&mut self, sock: &mut SimSocket) -> (r: PollRecv)
        requires
            wire_ok(old(sock)@),
        ensures
            final(sock).cap() == old(sock).cap(),
            final(sock).fault_code() == old(sock).fault_code(),
            recv_post(old(sock)@, old(sock).fault_code(), final(sock)@, r),
    {
        multipart_recv(sock)
    }

    /// Turns this receiver into one that batches up to `capacity` multiparts
    /// per readiness event.
    pub fn buffered(self, capacity: usize) -> (b: BufferedReceiver)
        requires
            capacity >= 1,
        ensures
            b.buffered_msgs().len() == 0,
            b.cap() == capacity,
            b.wf(),
    {
        BufferedReceiver::new(capacity)
    }
}

/// Receives multiparts through a bounded batch buffer: several fully
/// received messages can be taken off the wire in one readiness event and
/// handed out one by one.
pub struct BufferedReceiver {
    buffer: ReceiverBuffer,
}

impl BufferedReceiver {
    /// The multiparts already assembled and waiting to be handed out.
    pub closed spec fn buffered_msgs(&self) -> Seq<Seq<Seq<u8>>> {
        self.buffer@
    }

    /// The buffer's fixed capacity.
    pub closed spec fn cap(&self) -> int {
        self.buffer.cap()
    }

    /// Well-formedness: the batch buffer never exceeds its capacity.
    pub open spec fn wf(&self) -> bool {
        1 <= self.cap() && self.buffered_msgs().len() <= self.cap()
    }

    /// Creates a buffered receiver with an empty batch buffer.
    pub fn new(capacity: usize) -> (b: BufferedReceiver)
        requires
            capacity >= 1,
        ensures
            b.buffered_msgs().len() == 0,
            b.cap() == capacity,
            b.wf(),
    {
        BufferedReceiver { buffer: ReceiverBuffer::new(capacity) }
    }

    /// Attempts to receive the next multipart, draining whole messages into
    /// the batch buffer while the transport has them.
    pub fn poll_next(&mut self, sock: &mut SimSocket) -> (r: PollRecv)
        requires
            wire_ok(old(sock)@),
            old(self).wf(),
        ensures
            final(sock).cap() == old(sock).cap(),
            final(sock).fault_code() == old(sock).fault_code(),
            final(self).cap() == old(self).cap(),
            final(self).wf(),
            recv_buffered_post(
                old(sock)@,
                old(sock).fault_code(),
                old(self).cap(),
                old(self).buffered_msgs(),
                final(sock)@,
                final(self).buffered_msgs(),
                r,
            ),
    {
        multipart_recv_buffered(sock, &mut self.buffer)
    }
}

/// Sends and receives multiparts over one socket; owns the outbound buffer.
pub struct SenderReceiver {
    buffer: Multipart,
}

impl SenderReceiver {
    /// The frames staged for sending but not yet on the wire.
    pub closed spec fn pending(&self) -> Seq<Seq<u8>> {
        self.buffer@
    }

    /// Creates a combined endpoint with nothing staged.
    pub fn new() -> (s: SenderReceiver)
        ensures
            s.pending().len() == 0,
    {
        SenderReceiver { buffer: Multipart::new() }
    }

    /// Stages one multipart for sending, once the previous one is flushed.
    pub fn start_send(&mut self, item: Multipart)
        requires
            old(self).pending().len() == 0,
        ensures
            final(self).pending() == item@,
    {
        self.buffer = item;
    }

    /// Drives the staged multipart out; ready once nothing remains staged.
    pub fn poll_ready(&mut self, sock: &mut SimSocket) -> (r: PollSend)
        ensures
            final(sock).cap() == old(sock).cap(),
            final(sock).fault_code() == old(sock).fault_code(),
            flush_post(
                old(sock)@,
                old(self).pending(),
                old(sock).cap(),
                old(sock).fault_code(),
                final(sock)@,
                final(self).pending(),
                r,
            ),
    {
        multipart_flush(sock, &mut self.buffer)
    }

    /// Flushes the staged multipart to completion.
    pub fn poll_flush(&mut self, sock: &mut SimSocket) -> (r: PollSend)
        ensures
            final(sock).cap() == old(sock).cap(),
            final(sock).fault_code() == old(sock).fault_code(),
            flush_post(
                old(sock)@,
                old(self).pending(),
                old(sock).cap(),
                old(sock).fault_code(),
                final(sock)@,
                final(self).pending(),
                r,
            ),
    {
        multipart_flush(sock, &mut self.buffer)
    }

    /// Attempts to receive the next whole multipart. Sends and receives on
    /// one endpoint are independent: the receive side never touches the
    /// outbound buffer.
    pub fn poll_next(&mut self, sock: &mut SimSocket) -> (r: PollRecv)
        requires
            wire_ok(old(sock)@),
        ensures
            final(self).pending() == old(self).pending(),
            final(sock).cap() == old(sock).cap(),
            final(sock).fault_code() == old(sock).fault_code(),
            recv_post(old(sock)@, old(sock).fault_code(), final(sock)@, r),
    {
        multipart_recv(sock)
    }
}

} // verus!
