//! An in-memory transport socket with the same observable semantics as the
//! real one: per-frame non-blocking send and receive with a more-follows
//! flag, readiness queries, would-block on an empty or full queue, and an
//! injectable fatal fault.
//!
//! One `SimSocket` models one direction of a peering: the sender's frames
//! queue up in order and the receiver pops them off the front. The polling
//! drivers in [`crate::poll`] are verified against it, and the tests run
//! whole producer/consumer exchanges through it.

use std::collections::VecDeque;
use vstd::prelude::*;

use crate::poll::{FrameEvent, SendFrameEvent};

verus! {

/// In-memory frame queue between two peers, bounded to model back-pressure.
pub struct SimSocket {
    queue: VecDeque<(Vec<u8>, bool)>,
    capacity: usize,
    fault: Option<i32>,
}

impl View for SimSocket {
    type V = Seq<(Seq<u8>, bool)>;

    closed spec fn view(&self) -> Seq<(Seq<u8>, bool)> {
        Seq::new(self.queue@.len(), |i: int| (self.queue@[i].0@, self.queue@[i].1))
    }
}

impl SimSocket {
    /// How many frames the queue can hold before send would block.
    pub closed spec fn cap(&self) -> int {
        self.capacity as int
    }

    /// The injected fatal error, if any.
    pub closed spec fn fault_code(&self) -> Option<i32> {
        self.fault
    }

    /// Creates an empty queue that can hold `capacity` frames.
    pub fn new(capacity: usize) -> (s: SimSocket)
        ensures
            s@ == Seq::<(Seq<u8>, bool)>::empty(),
            s.cap() == capacity,
            s.fault_code() is None,
    {
        let s = SimSocket { queue: VecDeque::new(), capacity, fault: None };
        proof {
            assert(s@ =~= Seq::<(Seq<u8>, bool)>::empty());
        }
        s
    }

    /// Makes every subsequent frame operation fail fatally with `code`, as a
    /// broken transport would.
    pub fn inject_fault(&mut self, code: i32)
        ensures
            final(self)@ == old(self)@,
            final(self).cap() == old(self).cap(),
            final(self).fault_code() == Some(code),
    {
        self.fault = Some(code);
    }

    /// Readable means a frame is queued and a receive attempt would make
    /// progress right now.
    pub fn readable(&self) -> (r: bool)
        ensures
            r == (self@.len() > 0),
    {
        self.queue.len() > 0
    }

    /// Writable means the queue has room and a send attempt would make
    /// progress right now.
    pub fn writable(&self) -> (r: bool)
        ensures
            r == (self@.len() < self.cap()),
    {
        self.queue.len() < self.capacity
    }

    /// One non-blocking receive attempt: the oldest queued frame, or
    /// would-block on an empty queue, or the injected fault.
    pub fn recv_frame(&mut self) -> (ev: FrameEvent)
        ensures
            final(self).cap() == old(self).cap(),
            final(self).fault_code() == old(self).fault_code(),
            match old(self).fault_code() {
                Some(code) => {
                    &&& ev == FrameEvent::Fault(code)
                    &&& final(self)@ == old(self)@
                },
                None => {
                    if old(self)@.len() == 0 {
                        &&& ev is WouldBlock
                        &&& final(self)@ == old(self)@
                    } else {
                        &&& ev matches FrameEvent::Frame(bytes, more)
                            && bytes@ == old(self)@.first().0
                            && more == old(self)@.first().1
                        &&& final(self)@ == old(self)@.drop_first()
                    }
                },
            },
    {
        if let Some(code) = self.fault {
            return FrameEvent::Fault(code);
        }
        match self.queue.pop_front() {
            Some((bytes, more)) => {
                proof {
                    assert(self@ =~= old(self)@.drop_first());
                }
                FrameEvent::Frame(bytes, more)
            }
            None => FrameEvent::WouldBlock,
        }
    }

    /// One non-blocking send attempt: queues the frame with its more-follows
    /// flag, or hands it back on a full queue, or fails with the injected
    /// fault.
    pub fn send_frame(&mut self, frame: Vec<u8>, more: bool) -> (ev: SendFrameEvent)
        ensures
            final(self).cap() == old(self).cap(),
            final(self).fault_code() == old(self).fault_code(),
            match old(self).fault_code() {
                Some(code) => {
                    &&& ev == SendFrameEvent::Fault(code)
                    &&& final(self)@ == old(self)@
                },
                None => {
                    if old(self)@.len() < old(self).cap() {
                        &&& ev is Sent
                        &&& final(self)@ == old(self)@.push((frame@, more))
                    } else {
                        &&& ev matches SendFrameEvent::WouldBlock(f) && f@ == frame@
                        &&& final(self)@ == old(self)@
                    }
                },
            },
    {
        if let Some(code) = self.fault {
            return SendFrameEvent::Fault(code);
        }
        if self.queue.len() < self.capacity {
            self.queue.push_back((frame, more));
            proof {
                assert(self@ =~= old(self)@.push((frame@, more)));
            }
            SendFrameEvent::Sent
        } else {
            SendFrameEvent::WouldBlock(frame)
        }
    }
}

} // verus!
