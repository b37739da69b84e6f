//! The polling core: decisions of the multipart receive, batched receive and
//! send operations, stated over plain frame events.
//!
//! The transport hands back one event per non-blocking attempt: a frame with
//! its more-follows flag, would-block, or a fatal error. The step functions
//! here make every decision the polling loops need, so a driver — whether
//! the verified in-memory one in [`crate::sim`] or an unverified loop around
//! a real socket — only performs the attempt and forwards the event.

use std::collections::VecDeque;
use vstd::prelude::*;

use crate::error::TmqError;
use crate::message::Multipart;
use crate::sim::SimSocket;
use crate::wire::{
    drop_msgs, encode, encode_all, encode_prefix, first_msg, lemma_encode_all_prefix,
    lemma_encode_all_push, lemma_encode_all_wire_ok, lemma_open_prefix, msg_len, msgs_of,
    open_frames, rest_after_msg, wire_ok,
};

verus! {

/// Outcome of one non-blocking attempt to receive a frame.
#[derive(Debug)]
pub enum FrameEvent {
    /// A frame arrived; the flag says whether more frames of the same
    /// multipart follow.
    Frame(Vec<u8>, bool),
    /// The transport has nothing to hand out right now.
    WouldBlock,
    /// Fatal transport error, with its error code.
    Fault(i32),
}

/// Outcome of one non-blocking attempt to send a frame.
#[derive(Debug)]
pub enum SendFrameEvent {
    /// The frame was accepted by the transport.
    Sent,
    /// The transport cannot take the frame right now; it is handed back
    /// untouched so that no frame is lost.
    WouldBlock(Vec<u8>),
    /// Fatal transport error, with its error code.
    Fault(i32),
}

/// One decision of the receive loop.
#[derive(Debug)]
pub enum RecvStep {
    /// The frame was consumed but the multipart is not complete: attempt
    /// another receive.
    Continue,
    /// A whole multipart is ready for the caller.
    Ready(Multipart),
    /// Would-block before any progress: suspend until readable again.
    Pending,
    /// Fatal failure; the operation is over.
    Failed(TmqError),
}

/// Result of polling a receive operation.
#[derive(Debug)]
pub enum PollRecv {
    /// A whole multipart was received.
    Ready(Multipart),
    /// Nothing can be received right now: suspend until readable.
    Pending,
    /// Fatal failure.
    Failed(TmqError),
}

/// Result of polling a send or flush operation.
#[derive(Debug, PartialEq, Eq, Structural)]
pub enum PollSend {
    /// The whole buffer was written out.
    Ready,
    /// Nothing was written this call: suspend until writable, then retry.
    Pending,
    /// Fatal failure; `TmqError::InterruptedSend` marks a multipart
    /// abandoned after at least one of its frames went out.
    Failed(TmqError),
}

/// Bounded FIFO of assembled multiparts, used to amortize wakeups across
/// several fully received messages per readiness event.
///
/// The capacity is fixed at construction and the buffer never holds more
/// than that many multiparts.
pub struct ReceiverBuffer {
    capacity: usize,
    buffer: VecDeque<Multipart>,
}

impl View for ReceiverBuffer {
    type V = Seq<Seq<Seq<u8>>>;

    closed spec fn view(&self) -> Seq<Seq<Seq<u8>>> {
        Seq::new(self.buffer@.len(), |i: int| self.buffer@[i]@)
    }
}

impl ReceiverBuffer {
    /// The fixed capacity.
    pub closed spec fn cap(&self) -> int {
        self.capacity as int
    }

    /// Well-formedness: the capacity is positive and is never exceeded.
    pub open spec fn wf(&self) -> bool {
        1 <= self.cap() && self@.len() <= self.cap()
    }

    /// Creates an empty buffer of the given capacity.
    pub fn new(capacity: usize) -> (b: ReceiverBuffer)
        requires
            capacity >= 1,
        ensures
            b.wf(),
            b@ == Seq::<Seq<Seq<u8>>>::empty(),
            b.cap() == capacity,
    {
        let b = ReceiverBuffer { capacity, buffer: VecDeque::new() };
        proof {
            assert(b@ =~= Seq::<Seq<Seq<u8>>>::empty());
        }
        b
    }

    /// Returns `true` if no multipart is buffered.
    pub fn is_empty(&self) -> (r: bool)
        ensures
            r == (self@.len() == 0),
    {
        self.buffer.len() == 0
    }

    /// Returns `true` if the buffer is at capacity.
    pub fn is_full(&self) -> (r: bool)
        ensures
            r == (self@.len() == self.cap()),
    {
        self.buffer.len() == self.capacity
    }

    /// Removes and returns the oldest buffered multipart.
    pub fn pop_front(&mut self) -> (r: Option<Multipart>)
        ensures
            final(self).cap() == old(self).cap(),
            match r {
                Some(m) => {
                    &&& old(self)@.len() > 0
                    &&& m@ == old(self)@.first()
                    &&& final(self)@ == old(self)@.drop_first()
                },
                None => {
                    &&& old(self)@.len() == 0
                    &&& final(self)@ == old(self)@
                },
            },
    {
        let r = self.buffer.pop_front();
        proof {
            if old(self)@.len() > 0 {
                assert(self@ =~= old(self)@.drop_first());
            } else {
                assert(self@ =~= old(self)@);
            }
        }
        r
    }

    /// Appends a multipart; callers stop assembling before the buffer is
    /// full, so room is a precondition, and the capacity bound is invariant.
    pub fn push_back(&mut self, item: Multipart)
        requires
            old(self)@.len() < old(self).cap(),
        ensures
            final(self).cap() == old(self).cap(),
            final(self)@ == old(self)@.push(item@),
    {
        self.buffer.push_back(item);
        proof {
            assert(self@ =~= old(self)@.push(item@));
        }
    }
}

/// One decision step of the atomic receive: feed it the transport's event,
/// and it appends to the assembly buffer, completes the multipart, suspends,
/// or fails.
///
/// Would-block while a multipart is partly assembled would contradict the
/// transport's guarantee that all frames of a message become available
/// together; that event is excluded here and a driver that sees it must fail
/// loudly rather than swallow it.
pub fn recv_step(assembly: &mut Multipart, event: FrameEvent) -> (r: RecvStep)
    requires
        event is WouldBlock ==> old(assembly)@.len() == 0,
    ensures
        match event {
            FrameEvent::Frame(bytes, more) => {
                if more {
                    &&& r is Continue
                    &&& final(assembly)@ == old(assembly)@.push(bytes@)
                } else {
                    &&& r matches RecvStep::Ready(m) && m@ == old(assembly)@.push(bytes@)
                    &&& final(assembly)@ == Seq::<Seq<u8>>::empty()
                }
            },
            FrameEvent::WouldBlock => {
                &&& r is Pending
                &&& final(assembly)@ == old(assembly)@
            },
            FrameEvent::Fault(code) => {
                &&& r == RecvStep::Failed(TmqError::Zmq(code))
                &&& final(assembly)@ == Seq::<Seq<u8>>::empty()
            },
        },
{
    match event {
        FrameEvent::Frame(bytes, more) => {
            assembly.push_back(bytes);
            if more {
                RecvStep::Continue
            } else {
                RecvStep::Ready(assembly.take())
            }
        }
        FrameEvent::WouldBlock => RecvStep::Pending,
        FrameEvent::Fault(code) => {
            let _partial = assembly.take();
            RecvStep::Failed(TmqError::Zmq(code))
        }
    }
}

/// One decision step of the batched receive. Completed multiparts go into
/// the bounded buffer instead of straight to the caller; the oldest buffered
/// multipart is delivered as soon as the buffer fills or the transport runs
/// dry, and the operation suspends only when nothing at all is buffered.
pub fn buffered_recv_step(
    assembly: &mut Multipart,
    buf: &mut ReceiverBuffer,
    event: FrameEvent,
) -> (r: RecvStep)
    requires
        old(buf).wf(),
        old(buf)@.len() < old(buf).cap(),
        event is WouldBlock ==> old(assembly)@.len() == 0,
    ensures
        final(buf).cap() == old(buf).cap(),
        final(buf).wf(),
        match event {
            FrameEvent::Frame(bytes, more) => {
                if more {
                    &&& r is Continue
                    &&& final(assembly)@ == old(assembly)@.push(bytes@)
                    &&& final(buf)@ == old(buf)@
                } else {
                    &&& final(assembly)@ == Seq::<Seq<u8>>::empty()
                    &&& if old(buf)@.len() + 1 == old(buf).cap() {
                        &&& r matches RecvStep::Ready(m)
                            && m@ == old(buf)@.push(old(assembly)@.push(bytes@)).first()
                        &&& final(buf)@ == old(buf)@.push(old(assembly)@.push(bytes@)).drop_first()
                    } else {
                        &&& r is Continue
                        &&& final(buf)@ == old(buf)@.push(old(assembly)@.push(bytes@))
                    }
                }
            },
            FrameEvent::WouldBlock => {
                &&& final(assembly)@ == old(assembly)@
                &&& if old(buf)@.len() == 0 {
                    &&& r is Pending
                    &&& final(buf)@ == old(buf)@
                } else {
                    &&& r matches RecvStep::Ready(m) && m@ == old(buf)@.first()
                    &&& final(buf)@ == old(buf)@.drop_first()
                }
            },
            FrameEvent::Fault(code) => {
                &&& r == RecvStep::Failed(TmqError::Zmq(code))
                &&& final(assembly)@ == Seq::<Seq<u8>>::empty()
                &&& final(buf)@ == old(buf)@
            },
        },
{
    match event {
        FrameEvent::Frame(bytes, more) => {
            assembly.push_back(bytes);
            if more {
                RecvStep::Continue
            } else {
                let done = assembly.take();
                buf.push_back(done);
                if buf.is_full() {
                    let m = buf.pop_front().unwrap();
                    RecvStep::Ready(m)
                } else {
                    RecvStep::Continue
                }
            }
        }
        FrameEvent::WouldBlock => {
            if buf.is_empty() {
                RecvStep::Pending
            } else {
                let m = buf.pop_front().unwrap();
                RecvStep::Ready(m)
            }
        }
        FrameEvent::Fault(code) => {
            let _partial = assembly.take();
            RecvStep::Failed(TmqError::Zmq(code))
        }
    }
}

/// The decision after the transport refused a frame mid-flush. The frame is
/// pushed back to the front of the buffer so nothing is lost; if it was the
/// very first frame of this flush the operation merely suspends, while a
/// refusal after at least one frame went out is the interrupted-send
/// condition and is surfaced as its distinguished error.
pub fn send_would_block(buffer: &mut Multipart, frame: Vec<u8>, initial_len: usize) -> (r: PollSend)
    requires
        old(buffer)@.len() < initial_len,
    ensures
        final(buffer)@ == seq![frame@] + old(buffer)@,
        r == if old(buffer)@.len() + 1 == initial_len {
            PollSend::Pending
        } else {
            PollSend::Failed(TmqError::InterruptedSend)
        },
{
    buffer.push_front(frame);
    if buffer.len() != initial_len {
        PollSend::Failed(TmqError::InterruptedSend)
    } else {
        PollSend::Pending
    }
}

/// How many multiparts one batched receive takes off the wire `w`: every
/// complete message, but no more than the buffer's capacity.
pub open spec fn batch_take(w: Seq<(Seq<u8>, bool)>, cap: int) -> int {
    if msgs_of(w).len() <= cap {
        msgs_of(w).len() as int
    } else {
        cap
    }
}

/// Everything the atomic receive promises: how the wire after the call
/// (`w1`) and the result relate to the wire before it (`w0`) and to the
/// transport's fault state. On a quiet wire the operation suspends; on a
/// non-empty wire it delivers exactly the first complete message — all of
/// its frames, in order, never a prefix — and consumes nothing further.
pub open spec fn recv_post(
    w0: Seq<(Seq<u8>, bool)>,
    fault: Option<i32>,
    w1: Seq<(Seq<u8>, bool)>,
    r: PollRecv,
) -> bool {
    match fault {
        Some(code) => r == PollRecv::Failed(TmqError::Zmq(code)) && w1 == w0,
        None => {
            if w0.len() == 0 {
                &&& r is Pending
                &&& w1 == w0
            } else {
                &&& r matches PollRecv::Ready(m) && m@ == first_msg(w0) && m@.len() > 0
                &&& w1 == rest_after_msg(w0)
            }
        },
    }
}

/// Everything the batched receive promises. With a multipart already
/// buffered (`rb0`), the oldest is delivered without touching the wire.
/// Otherwise every complete message on the wire is drained into the buffer,
/// up to its capacity `rcap`, and the oldest is delivered; suspension
/// happens only with nothing buffered and nothing on the wire.
pub open spec fn recv_buffered_post(
    w0: Seq<(Seq<u8>, bool)>,
    fault: Option<i32>,
    rcap: int,
    rb0: Seq<Seq<Seq<u8>>>,
    w1: Seq<(Seq<u8>, bool)>,
    rb1: Seq<Seq<Seq<u8>>>,
    r: PollRecv,
) -> bool {
    if rb0.len() > 0 {
        &&& r matches PollRecv::Ready(m) && m@ == rb0.first()
        &&& rb1 == rb0.drop_first()
        &&& w1 == w0
    } else {
        match fault {
            Some(code) => {
                &&& r == PollRecv::Failed(TmqError::Zmq(code))
                &&& w1 == w0
                &&& rb1 == rb0
            },
            None => {
                if w0.len() == 0 {
                    &&& r is Pending
                    &&& w1 == w0
                    &&& rb1 == rb0
                } else {
                    &&& r matches PollRecv::Ready(m) && m@ == msgs_of(w0).first()
                    &&& rb1 == msgs_of(w0).subrange(1, batch_take(w0, rcap))
                    &&& w1 == drop_msgs(w0, batch_take(w0, rcap))
                }
            },
        }
    }
}

/// Everything one send attempt promises. An empty buffer `b0` succeeds
/// without touching the wire. Otherwise frames go out front to back until
/// the buffer is drained or the wire is full: refusal of the very first
/// frame suspends with nothing written, refusal after `k >= 1` frames is the
/// interrupted-send error with exactly those `k` frames on the wire and the
/// rest still buffered.
pub open spec fn send_post(
    w0: Seq<(Seq<u8>, bool)>,
    b0: Seq<Seq<u8>>,
    cap: int,
    fault: Option<i32>,
    w1: Seq<(Seq<u8>, bool)>,
    b1: Seq<Seq<u8>>,
    r: PollSend,
) -> bool {
    &&& (b0.len() == 0 ==> r is Ready && w1 == w0 && b1 == b0)
    &&& (b0.len() > 0 ==> match fault {
        Some(code) => {
            &&& r == PollSend::Failed(TmqError::Zmq(code))
            &&& w1 == w0
            &&& b1 == b0.drop_first()
        },
        None => {
            if w0.len() + b0.len() <= cap {
                &&& r is Ready
                &&& w1 == w0 + encode(b0)
                &&& b1.len() == 0
            } else if w0.len() >= cap {
                &&& r is Pending
                &&& w1 == w0
                &&& b1 == b0
            } else {
                &&& r == PollSend::Failed(TmqError::InterruptedSend)
                &&& w1 == w0 + encode_prefix(b0, cap - w0.len())
                &&& b1 == b0.skip(cap - w0.len())
            }
        },
    })
}

/// Everything a flush promises: as [`send_post`], except that the operation
/// first checks writability, so on a full wire it suspends before the fault
/// state is ever consulted.
pub open spec fn flush_post(
    w0: Seq<(Seq<u8>, bool)>,
    b0: Seq<Seq<u8>>,
    cap: int,
    fault: Option<i32>,
    w1: Seq<(Seq<u8>, bool)>,
    b1: Seq<Seq<u8>>,
    r: PollSend,
) -> bool {
    &&& (b0.len() == 0 ==> r is Ready && w1 == w0 && b1 == b0)
    &&& (b0.len() > 0 && w0.len() >= cap ==> r is Pending && w1 == w0 && b1 == b0)
    &&& (b0.len() > 0 && w0.len() < cap ==> match fault {
        Some(code) => {
            &&& r == PollSend::Failed(TmqError::Zmq(code))
            &&& w1 == w0
            &&& b1 == b0.drop_first()
        },
        None => {
            if w0.len() + b0.len() <= cap {
                &&& r is Ready
                &&& w1 == w0 + encode(b0)
                &&& b1.len() == 0
            } else {
                &&& r == PollSend::Failed(TmqError::InterruptedSend)
                &&& w1 == w0 + encode_prefix(b0, cap - w0.len())
                &&& b1 == b0.skip(cap - w0.len())
            }
        },
    })
}

/// Attempt to receive one whole multipart from the socket.
///
/// The transport makes all frames of one message available together, so the
/// loop either assembles a complete multipart — exactly the first message on
/// the wire, leaving the rest untouched — or suspends before consuming any
/// frame, or fails fatally. A partial message is never handed out.
#[verifier::loop_isolation(false)]
pub fn multipart_recv(sock: &mut SimSocket) -> (r: PollRecv)
    requires
        wire_ok(old(sock)@),
    ensures
        final(sock).cap() == old(sock).cap(),
        final(sock).fault_code() == old(sock).fault_code(),
        recv_post(old(sock)@, old(sock).fault_code(), final(sock)@, r),
{
    let ghost w0 = sock@;
    let ghost cap0 = sock.cap();
    let ghost fault0 = sock.fault_code();
    let mut assembly = Multipart::new();
    proof {
        assert(w0 =~= open_frames(assembly@) + sock@);
    }
    loop
        invariant
            sock.cap() == cap0,
            sock.fault_code() == fault0,
            wire_ok(sock@),
            w0 == open_frames(assembly@) + sock@,
            assembly@.len() > 0 ==> sock@.len() > 0,
            fault0 is Some ==> assembly@.len() == 0 && sock@ == w0,
        decreases sock@.len(),
    {
        let ghost wpre = sock@;
        let ghost asmpre = assembly@;
        let ev = sock.recv_frame();
        let ghost evg = ev;
        match recv_step(&mut assembly, ev) {
            RecvStep::Continue => {
                proof {
                    let bytes = evg->Frame_0;
                    assert(wpre.first() == (bytes@, true));
                    assert(wpre.len() != 1) by {
                        if wpre.len() == 1 {
                            assert(wpre.last() == wpre.first());
                        }
                    }
                    assert(sock@.last() == wpre.last());
                    assert(w0 =~= open_frames(assembly@) + sock@);
                }
            }
            RecvStep::Ready(m) => {
                proof {
                    let bytes = evg->Frame_0;
                    assert(wpre.first() == (bytes@, false));
                    assert(msg_len(wpre) == 1);
                    lemma_open_prefix(asmpre, wpre);
                    assert(first_msg(wpre) =~= seq![bytes@]);
                    assert(m@ =~= asmpre + first_msg(wpre));
                    assert(sock@ =~= rest_after_msg(wpre));
                }
                return PollRecv::Ready(m);
            }
            RecvStep::Pending => {
                proof {
                    assert(sock@ =~= w0);
                }
                return PollRecv::Pending;
            }
            RecvStep::Failed(e) => {
                return PollRecv::Failed(e);
            }
        }
    }
}

/// Attempt to send the whole multipart buffer, front to back.
///
/// An empty buffer succeeds immediately. Otherwise frames go out in order,
/// flagged more-follows on all but the last. If the transport refuses the
/// very first frame nothing has been written and the operation merely
/// suspends; a refusal after at least one frame is the interrupted-send
/// condition and surfaces as `TmqError::InterruptedSend`, with the refused
/// frame back at the front of the buffer so no frame is lost.
#[verifier::loop_isolation(false)]
pub fn multipart_send(sock: &mut SimSocket, buffer: &mut Multipart) -> (r: PollSend)
    ensures
        final(sock).cap() == old(sock).cap(),
        final(sock).fault_code() == old(sock).fault_code(),
        send_post(
            old(sock)@,
            old(buffer)@,
            old(sock).cap(),
            old(sock).fault_code(),
            final(sock)@,
            final(buffer)@,
            r,
        ),
{
    let ghost w0 = sock@;
    let ghost cap0 = sock.cap();
    let ghost fault0 = sock.fault_code();
    let ghost b0 = buffer@;
    let initial_len: usize = buffer.len();
    proof {
        assert(b0.skip(0) =~= b0);
        assert(w0 + encode_prefix(b0, 0) =~= w0);
    }
    loop
        invariant
            sock.cap() == cap0,
            sock.fault_code() == fault0,
            initial_len == b0.len(),
            buffer@.len() <= b0.len(),
            buffer@ == b0.skip(b0.len() - buffer@.len()),
            fault0 is None ==> sock@ == w0 + encode_prefix(b0, b0.len() - buffer@.len()),
            fault0 is None && buffer@.len() < b0.len() ==> sock@.len() <= cap0,
            fault0 is Some ==> sock@ == w0 && buffer@ == b0,
        decreases buffer@.len(),
    {
        let ghost sent = b0.len() - buffer@.len();
        match buffer.pop_front() {
            None => {
                proof {
                    if b0.len() > 0 && fault0 is None {
                        assert(w0 + encode_prefix(b0, b0.len() as int) =~= w0 + encode(b0));
                        assert(sock@.len() == w0.len() + b0.len());
                    }
                }
                return PollSend::Ready;
            }
            Some(frame) => {
                let more = !buffer.is_empty();
                let ghost framev = frame@;
                match sock.send_frame(frame, more) {
                    SendFrameEvent::Sent => {
                        proof {
                            assert(framev == b0[sent as int]);
                            assert(buffer@ =~= b0.skip(sent + 1));
                            assert(sock@ =~= w0 + encode_prefix(b0, sent + 1));
                        }
                    }
                    SendFrameEvent::WouldBlock(f) => {
                        proof {
                            assert(buffer@ =~= b0.skip(sent + 1));
                            if sent > 0 {
                                assert(sock@.len() == w0.len() + sent);
                                assert(sock@.len() == cap0);
                                assert(sent == cap0 - w0.len());
                                assert(sent < b0.len());
                            }
                        }
                        let r = send_would_block(buffer, f, initial_len);
                        proof {
                            assert(buffer@ =~= b0.skip(sent as int));
                            if sent == 0 {
                                assert(sock@ =~= w0);
                                assert(buffer@ =~= b0);
                                assert(sock@.len() >= cap0);
                            }
                        }
                        return r;
                    }
                    SendFrameEvent::Fault(code) => {
                        proof {
                            assert(buffer@ =~= b0.drop_first());
                        }
                        return PollSend::Failed(TmqError::Zmq(code));
                    }
                }
            }
        }
    }
}

/// Attempt to flush the multipart buffer completely.
///
/// An empty buffer is already flushed. Otherwise the operation first asks
/// the transport whether it is writable at all — suspending if not, so that
/// a wakeup is armed before anything is attempted — and then drains the
/// buffer as [`multipart_send`] does.
pub fn multipart_flush(sock: &mut SimSocket, buffer: &mut Multipart) -> (r: PollSend)
    ensures
        final(sock).cap() == old(sock).cap(),
        final(sock).fault_code() == old(sock).fault_code(),
        flush_post(
            old(sock)@,
            old(buffer)@,
            old(sock).cap(),
            old(sock).fault_code(),
            final(sock)@,
            final(buffer)@,
            r,
        ),
{
    if buffer.is_empty() {
        return PollSend::Ready;
    }
    if !sock.writable() {
        return PollSend::Pending;
    }
    multipart_send(sock, buffer)
}

/// Attempt to receive a multipart with batching.
///
/// A multipart already buffered is returned right away, without touching the
/// transport. Otherwise whole messages are drained off the wire into the
/// bounded buffer until the buffer is full or the transport runs dry, and
/// the oldest is returned; the operation suspends only when there is nothing
/// buffered and nothing on the wire.
#[verifier::loop_isolation(false)]
pub fn multipart_recv_buffered(sock: &mut SimSocket, rbuf: &mut ReceiverBuffer) -> (r: PollRecv)
    requires
        wire_ok(old(sock)@),
        old(rbuf).wf(),
    ensures
        final(sock).cap() == old(sock).cap(),
        final(sock).fault_code() == old(sock).fault_code(),
        final(rbuf).cap() == old(rbuf).cap(),
        final(rbuf).wf(),
        recv_buffered_post(
            old(sock)@,
            old(sock).fault_code(),
            old(rbuf).cap(),
            old(rbuf)@,
            final(sock)@,
            final(rbuf)@,
            r,
        ),
{
    if !rbuf.is_empty() {
        let m = rbuf.pop_front().unwrap();
        return PollRecv::Ready(m);
    }
    let ghost w0 = sock@;
    let ghost cap0 = sock.cap();
    let ghost fault0 = sock.fault_code();
    let ghost rcap0 = rbuf.cap();
    let mut assembly = Multipart::new();
    proof {
        assert(encode_all(rbuf@) == Seq::<(Seq<u8>, bool)>::empty());
        assert(w0 =~= encode_all(rbuf@) + open_frames(assembly@) + sock@);
    }
    loop
        invariant
            sock.cap() == cap0,
            sock.fault_code() == fault0,
            rbuf.cap() == rcap0,
            rcap0 >= 1,
            rbuf@.len() < rcap0,
            wire_ok(sock@),
            assembly@.len() > 0 ==> sock@.len() > 0,
            forall|i: int| 0 <= i < rbuf@.len() ==> #[trigger] rbuf@[i].len() > 0,
            w0 == encode_all(rbuf@) + open_frames(assembly@) + sock@,
            fault0 is Some ==> assembly@.len() == 0 && rbuf@.len() == 0 && sock@ == w0,
        decreases sock@.len(),
    {
        let ghost wpre = sock@;
        let ghost asmpre = assembly@;
        let ghost bufpre = rbuf@;
        let ev = sock.recv_frame();
        let ghost evg = ev;
        match buffered_recv_step(&mut assembly, rbuf, ev) {
            RecvStep::Continue => {
                proof {
                    let bytes = evg->Frame_0;
                    let more = evg->Frame_1;
                    if more {
                        assert(wpre.first() == (bytes@, true));
                        assert(wpre.len() != 1) by {
                            if wpre.len() == 1 {
                                assert(wpre.last() == wpre.first());
                            }
                        }
                        assert(sock@.last() == wpre.last());
                        assert(w0 =~= encode_all(rbuf@) + open_frames(assembly@) + sock@);
                    } else {
                        let done = asmpre.push(bytes@);
                        assert(wpre.first() == (bytes@, false));
                        lemma_encode_all_push(bufpre, done);
                        assert(encode(done) =~= open_frames(asmpre).push((bytes@, false)));
                        assert(encode_all(rbuf@) + open_frames(assembly@) + sock@ =~= encode_all(
                            bufpre,
                        ) + open_frames(asmpre) + wpre);
                    }
                }
            }
            RecvStep::Ready(m) => {
                proof {
                    if evg is WouldBlock {
                        assert(wpre.len() == 0);
                        assert(w0 =~= encode_all(bufpre));
                        lemma_encode_all_prefix(bufpre, Seq::<(Seq<u8>, bool)>::empty());
                        assert(encode_all(bufpre) + Seq::<(Seq<u8>, bool)>::empty() =~= w0);
                        assert(msgs_of(Seq::<(Seq<u8>, bool)>::empty())
                            == Seq::<Seq<Seq<u8>>>::empty());
                        assert(msgs_of(w0) =~= bufpre);
                        lemma_encode_all_wire_ok(bufpre);
                        assert(w0.len() > 0);
                        assert(rbuf@ =~= msgs_of(w0).subrange(1, batch_take(w0, rcap0)));
                        assert(drop_msgs(w0, batch_take(w0, rcap0)) =~= sock@);
                    } else {
                        let bytes = evg->Frame_0;
                        let done = asmpre.push(bytes@);
                        let full = bufpre.push(done);
                        assert(wpre.first() == (bytes@, false));
                        lemma_encode_all_push(bufpre, done);
                        assert(encode(done) =~= open_frames(asmpre).push((bytes@, false)));
                        assert(encode_all(full) + sock@ =~= encode_all(bufpre) + open_frames(
                            asmpre,
                        ) + wpre);
                        assert(w0 =~= encode_all(full) + sock@);
                        lemma_encode_all_prefix(full, sock@);
                        assert(msgs_of(w0) =~= full + msgs_of(sock@));
                        assert(full.len() == rcap0);
                        assert(msgs_of(w0).len() >= rcap0);
                        assert(m@ == msgs_of(w0).first());
                        assert(batch_take(w0, rcap0) == rcap0);
                        assert(rbuf@ =~= msgs_of(w0).subrange(1, rcap0));
                        assert(drop_msgs(w0, rcap0) == sock@);
                        assert(w0.len() > 0);
                    }
                }
                return PollRecv::Ready(m);
            }
            RecvStep::Pending => {
                proof {
                    assert(w0 =~= sock@);
                    assert(rbuf@ =~= old(rbuf)@);
                }
                return PollRecv::Pending;
            }
            RecvStep::Failed(e) => {
                proof {
                    assert(rbuf@ =~= old(rbuf)@);
                }
                return PollRecv::Failed(e);
            }
        }
    }
}

} // verus!
