//! Send/receive wrappers and the split construction.
//!
//! A combined wrapper owns one outbound buffer over one socket. Splitting it
//! partitions the two directions into independent halves — a write half and
//! a read half — that issue operations against the same underlying socket
//! (in an application, through a shared reference-counted handle) while each
//! half keeps exclusive ownership of its own buffer. Delivery order is
//! preserved on each half independently; no ordering is promised between
//! them.

use vstd::prelude::*;

use crate::message::Multipart;
use crate::poll::{
    flush_post, multipart_flush, multipart_recv, multipart_recv_buffered, recv_buffered_post,
    recv_post, PollRecv, PollSend, ReceiverBuffer,
};
use crate::sim::SimSocket;
use crate::wire::wire_ok;

verus! {

/// Write-only wrapper owning an outbound buffer.
pub struct SendWrapper {
    buffer: Multipart,
}

impl SendWrapper {
    /// The frames staged for sending but not yet on the wire.
    pub closed spec fn pending(&self) -> Seq<Seq<u8>> {
        self.buffer@
    }

    /// Creates a write wrapper with nothing staged.
    pub fn new() -> (s: SendWrapper)
        ensures
            s.pending().len() == 0,
    {
        SendWrapper { buffer: Multipart::new() }
    }

    /// Stages one multipart, once the previous one is flushed.
    pub fn start_send(&mut self, item: Multipart)
        requires
            old(self).pending().len() == 0,
        ensures
            final(self).pending() == item@,
    {
        self.buffer = item;
    }

    /// Flushes the staged multipart to completion.
    pub fn poll_flush(&mut self, sock: &mut SimSocket) -> (r: PollSend)
        ensures
            final(sock).cap() == old(sock).cap(),
            final(sock).fault_code() == old(sock).fault_code(),
            flush_post(
                old(sock)@,
                old(self).pending(),
                old(sock).cap(),
                old(sock).fault_code(),
                final(sock)@,
                final(self).pending(),
                r,
            ),
    {
        multipart_flush(sock, &mut self.buffer)
    }
}

/// Read-only wrapper; yields whole multiparts.
pub struct ReceiveWrapper {}

impl ReceiveWrapper {
    /// Creates a read wrapper.
    pub fn new() -> (r: ReceiveWrapper) {
        ReceiveWrapper {  }
    }

    /// Attempts to receive the next whole multipart.
    pub fn poll_next(&mut self, sock: &mut SimSocket) -> (r: PollRecv)
        requires
            wire_ok(old(sock)@),
        ensures
            final(sock).cap() == old(sock).cap(),
            final(sock).fault_code() == old(sock).fault_code(),
            recv_post(old(sock)@, old(sock).fault_code(), final(sock)@, r),
    {
        multipart_recv(sock)
    }

    /// Adds a bounded batch buffer to this read wrapper.
    pub fn buffered(self, capacity: usize) -> (b: BufferedReceiveWrapper)
        requires
            capacity >= 1,
        ensures
            b.buffered_msgs().len() == 0,
            b.cap() == capacity,
    {
        BufferedReceiveWrapper::new(capacity)
    }
}

/// Read-only wrapper with a bounded batch buffer.
pub struct BufferedReceiveWrapper {
    buffer: ReceiverBuffer,
}

impl BufferedReceiveWrapper {
    /// The multiparts already assembled and waiting to be handed out.
    pub closed spec fn buffered_msgs(&self) -> Seq<Seq<Seq<u8>>> {
        self.buffer@
    }

    /// The batch buffer's fixed capacity.
    pub closed spec fn cap(&self) -> int {
        self.buffer.cap()
    }

    /// Well-formedness: the batch buffer never exceeds its capacity.
    pub open spec fn wf(&self) -> bool {
        1 <= self.cap() && self.buffered_msgs().len() <= self.cap()
    }

    /// Creates a buffered read wrapper with an empty batch buffer.
    pub fn new(capacity: usize) -> (b: BufferedReceiveWrapper)
        requires
            capacity >= 1,
        ensures
            b.buffered_msgs().len() == 0,
            b.cap() == capacity,
            b.wf(),
    {
        BufferedReceiveWrapper { buffer: ReceiverBuffer::new(capacity) }
    }

    /// Attempts to receive the next multipart through the batch buffer.
    pub fn poll_next(&mut self, sock: &mut SimSocket) -> (r: PollRecv)
        requires
            wire_ok(old(sock)@),
            old(self).wf(),
        ensures
            final(sock).cap() == old(sock).cap(),
            final(sock).fault_code() == old(sock).fault_code(),
            final(self).cap() == old(self).cap(),
            final(self).wf(),
            recv_buffered_post(
                old(sock)@,
                old(sock).fault_code(),
                old(self).cap(),
                old(self).buffered_msgs(),
                final(sock)@,
                final(self).buffered_msgs(),
                r,
            ),
    {
        multipart_recv_buffered(sock, &mut self.buffer)
    }
}

/// Combined wrapper that both sends and receives; owns the outbound buffer
/// and can be split into independent halves.
pub struct SendReceiveWrapper {
    buffer: Multipart,
}

impl SendReceiveWrapper {
    /// The frames staged for sending but not yet on the wire.
    pub closed spec fn pending(&self) -> Seq<Seq<u8>> {
        self.buffer@
    }

    /// Creates a combined wrapper with nothing staged.
    pub fn new() -> (s: SendReceiveWrapper)
        ensures
            s.pending().len() == 0,
    {
        SendReceiveWrapper { buffer: Multipart::new() }
    }

    /// Stages one multipart, once the previous one is flushed.
    pub fn start_send(&mut self, item: Multipart)
        requires
            old(self).pending().len() == 0,
        ensures
            final(self).pending() == item@,
    {
        self.buffer = item;
    }

    /// Flushes the staged multipart to completion.
    pub fn poll_flush(&mut self, sock: &mut SimSocket) -> (r: PollSend)
        ensures
            final(sock).cap() == old(sock).cap(),
            final(sock).fault_code() == old(sock).fault_code(),
            flush_post(
                old(sock)@,
                old(self).pending(),
                old(sock).cap(),
                old(sock).fault_code(),
                final(sock)@,
                final(self).pending(),
                r,
            ),
    {
        multipart_flush(sock, &mut self.buffer)
    }

    /// Attempts to receive the next whole multipart; the outbound buffer is
    /// untouched.
    pub fn poll_next(&mut self, sock: &mut SimSocket) -> (r: PollRecv)
        requires
            wire_ok(old(sock)@),
        ensures
            final(self).pending() == old(self).pending(),
            final(sock).cap() == old(sock).cap(),
            final(sock).fault_code() == old(sock).fault_code(),
            recv_post(old(sock)@, old(sock).fault_code(), final(sock)@, r),
    {
        multipart_recv(sock)
    }

    /// Splits into an independent read half and write half. The write half
    /// keeps whatever was staged; neither half can touch the other's buffer,
    /// so each direction's delivery order is preserved on its own.
    pub fn split(self) -> (halves: (ReceiveWrapperShared, SendWrapperShared))
        ensures
            halves.1.pending() == self.pending(),
    {
        (ReceiveWrapperShared::new(), SendWrapperShared::new(self.buffer))
    }
}

/// Write half of a split wrapper; shares the socket, owns its buffer.
pub struct SendWrapperShared {
    buffer: Multipart,
}

impl SendWrapperShared {
    /// The frames staged for sending but not yet on the wire.
    pub closed spec fn pending(&self) -> Seq<Seq<u8>> {
        self.buffer@
    }

    /// Creates the write half around an existing outbound buffer.
    pub fn new(buffer: Multipart) -> (s: SendWrapperShared)
        ensures
            s.pending() == buffer@,
    {
        SendWrapperShared { buffer }
    }

    /// Stages one multipart, once the previous one is flushed.
    pub fn start_send(&mut self, item: Multipart)
        requires
            old(self).pending().len() == 0,
        ensures
            final(self).pending() == item@,
    {
        self.buffer = item;
    }

    /// Flushes the staged multipart to completion.
    pub fn poll_flush(&mut self, sock: &mut SimSocket) -> (r: PollSend)
        ensures
            final(sock).cap() == old(sock).cap(),
            final(sock).fault_code() == old(sock).fault_code(),
            flush_post(
                old(sock)@,
                old(self).pending(),
                old(sock).cap(),
                old(sock).fault_code(),
                final(sock)@,
                final(self).pending(),
                r,
            ),
    {
        multipart_flush(sock, &mut self.buffer)
    }
}

/// Read half of a split wrapper; shares the socket, owns nothing.
pub struct ReceiveWrapperShared {}

impl ReceiveWrapperShared {
    /// Creates the read half.
    pub fn new() -> (r: ReceiveWrapperShared) {
        ReceiveWrapperShared {  }
    }

    /// Attempts to receive the next whole multipart.
    pub fn poll_next(&mut self, sock: &mut SimSocket) -> (r: PollRecv)
        requires
            wire_ok(old(sock)@),
        ensures
            final(sock).cap() == old(sock).cap(),
            final(sock).fault_code() == old(sock).fault_code(),
            recv_post(old(sock)@, old(sock).fault_code(), final(sock)@, r),
    {
        multipart_recv(sock)
    }

    /// Adds a bounded batch buffer to this read half.
    pub fn buffered(self, capacity: usize) -> (b: BufferedReceiveWrapperShared)
        requires
            capacity >= 1,
        ensures
            b.buffered_msgs().len() == 0,
            b.cap() == capacity,
    {
        BufferedReceiveWrapperShared::new(capacity)
    }
}

/// Read half of a split wrapper with a bounded batch buffer.
pub struct BufferedReceiveWrapperShared {
    buffer: ReceiverBuffer,
}

impl BufferedReceiveWrapperShared {
    /// The multiparts already assembled and waiting to be handed out.
    pub closed spec fn buffered_msgs(&self) -> Seq<Seq<Seq<u8>>> {
        self.buffer@
    }

    /// The batch buffer's fixed capacity.
    pub closed spec fn cap(&self) -> int {
        self.buffer.cap()
    }

    /// Well-formedness: the batch buffer never exceeds its capacity.
    pub open spec fn wf(&self) -> bool {
        1 <= self.cap() && self.buffered_msgs().len() <= self.cap()
    }

    /// Creates the buffered read half with an empty batch buffer.
    pub fn new(capacity: usize) -> (b: BufferedReceiveWrapperShared)
        requires
            capacity >= 1,
        ensures
            b.buffered_msgs().len() == 0,
            b.cap() == capacity,
            b.wf(),
    {
        BufferedReceiveWrapperShared { buffer: ReceiverBuffer::new(capacity) }
    }

    /// Attempts to receive the next multipart through the batch buffer.
    pub fn poll_next(&mut self, sock: &mut SimSocket) -> (r: PollRecv)
        requires
            wire_ok(old(sock)@),
            old(self).wf(),
        ensures
            final(sock).cap() == old(sock).cap(),
            final(sock).fault_code() == old(sock).fault_code(),
            final(self).cap() == old(self).cap(),
            final(self).wf(),
            recv_buffered_post(
                old(sock)@,
                old(sock).fault_code(),
                old(self).cap(),
                old(self).buffered_msgs(),
                final(sock)@,
                final(self).buffered_msgs(),
                r,
            ),
    {
        multipart_recv_buffered(sock, &mut self.buffer)
    }
}

} // verus!
