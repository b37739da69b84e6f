//! The publishing endpoint: a producer that accepts submissions eagerly.
//!
//! Unlike the single-slot sink discipline of [`crate::comm::Sender`], the
//! publisher takes every submission immediately — the one being drained sits
//! in the current slot and the rest wait in a queue — and its completion
//! poll pushes them onto the wire one whole multipart at a time, in
//! submission order.

use std::collections::VecDeque;
use vstd::prelude::*;

use crate::message::Multipart;
use crate::poll::{flush_post, multipart_flush, PollSend};
use crate::sim::SimSocket;

verus! {

/// Publishing endpoint: one multipart being drained, the rest queued.
pub struct Pub {
    current: Multipart,
    queue: VecDeque<Multipart>,
}

impl Pub {
    /// The frames of the submission currently being drained.
    pub closed spec fn current(&self) -> Seq<Seq<u8>> {
        self.current@
    }

    /// The submissions waiting behind the current one, in order.
    pub closed spec fn queued(&self) -> Seq<Seq<Seq<u8>>> {
        Seq::new(self.queue@.len(), |i: int| self.queue@[i]@)
    }

    /// Creates a publisher with nothing to drain.
    pub fn new() -> (p: Pub)
        ensures
            p.current().len() == 0,
            p.queued().len() == 0,
    {
        let p = Pub { current: Multipart::new(), queue: VecDeque::new() };
        proof {
            assert(p.queued() =~= Seq::<Seq<Seq<u8>>>::empty());
        }
        p
    }

    /// Accepts one submission immediately: into the current slot if that is
    /// free, else onto the back of the queue.
    pub fn start_send(&mut self, item: Multipart)
        ensures
            old(self).current().len() == 0 ==> {
                &&& final(self).current() == item@
                &&& final(self).queued() == old(self).queued()
            },
            old(self).current().len() > 0 ==> {
                &&& final(self).current() == old(self).current()
                &&& final(self).queued() == old(self).queued().push(item@)
            },
    {
        if self.current.is_empty() {
            self.current = item;
            proof {
                assert(self.queued() =~= old(self).queued());
            }
        } else {
            self.queue.push_back(item);
            proof {
                assert(self.queued() =~= old(self).queued().push(item@));
            }
        }
    }

    /// Drains the current submission; once it is fully out, the next queued
    /// submission moves up and another poll is requested, so the queue keeps
    /// draining in order until it is empty.
    pub fn poll_complete(&mut self, sock: &mut SimSocket) -> (r: PollSend)
        ensures
            final(sock).cap() == old(sock).cap(),
            final(sock).fault_code() == old(sock).fault_code(),
            match r {
                PollSend::Ready => {
                    &&& flush_post(
                        old(sock)@,
                        old(self).current(),
                        old(sock).cap(),
                        old(sock).fault_code(),
                        final(sock)@,
                        final(self).current(),
                        PollSend::Ready,
                    )
                    &&& final(self).current().len() == 0
                    &&& old(self).queued().len() == 0
                    &&& final(self).queued() == old(self).queued()
                },
                PollSend::Pending => {
                    (flush_post(
                        old(sock)@,
                        old(self).current(),
                        old(sock).cap(),
                        old(sock).fault_code(),
                        final(sock)@,
                        final(self).current(),
                        PollSend::Pending,
                    ) && final(self).queued() == old(self).queued()) || (flush_post(
                        old(sock)@,
                        old(self).current(),
                        old(sock).cap(),
                        old(sock).fault_code(),
                        final(sock)@,
                        Seq::<Seq<u8>>::empty(),
                        PollSend::Ready,
                    ) && old(self).queued().len() > 0
                        && final(self).current() == old(self).queued().first()
                        && final(self).queued() == old(self).queued().drop_first())
                },
                PollSend::Failed(e) => {
                    &&& flush_post(
                        old(sock)@,
                        old(self).current(),
                        old(sock).cap(),
                        old(sock).fault_code(),
                        final(sock)@,
                        final(self).current(),
                        PollSend::Failed(e),
                    )
                    &&& final(self).queued() == old(self).queued()
                },
            },
    {
        let r = multipart_flush(sock, &mut self.current);
        match r {
            PollSend::Ready => {
                match self.queue.pop_front() {
                    Some(next) => {
                        proof {
                            assert(self.current@ =~= Seq::<Seq<u8>>::empty());
                        }
                        self.current = next;
                        proof {
                            assert(self.queued() =~= old(self).queued().drop_first());
                        }
                        // the next submission still has to go out: ask to be
                        // polled again
                        PollSend::Pending
                    }
                    None => {
                        proof {
                            assert(self.queued() =~= old(self).queued());
                        }
                        PollSend::Ready
                    }
                }
            }
            other => {
                proof {
                    assert(self.queued() =~= old(self).queued());
                }
                other
            }
        }
    }
}

} // verus!
