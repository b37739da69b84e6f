//! The requester poll machine: a runtime-state variant of the strict
//! alternation protocol, driven by an upstream stream of requests.
//!
//! Each request pulled from the stream is sent to completion, then exactly
//! one reply is received, and the cycle restarts. The alternation lives in
//! the state: the send operation is only enabled in `Sending`, the receive
//! only in `Receiving`, and completing either moves the machine to the
//! other, so two sends or two receives can never complete in a row.
//!
//! The socket attempts and the upstream stream live with whoever drives the
//! machine; every decision is made here.

use vstd::prelude::*;

use crate::error::TmqError;
use crate::message::Multipart;
use crate::poll::{flush_post, multipart_flush, multipart_recv, recv_post, PollRecv, PollSend};
use crate::sim::SimSocket;
use crate::wire::wire_ok;

verus! {

/// Where the requester stands in its send/receive cycle.
pub enum State {
    /// Waiting for the upstream stream to produce the next request.
    BeginSend,
    /// A request is being pushed out; holds its unsent frames.
    Sending(Multipart),
    /// The request is out; a reply is awaited. Holds the scratch assembly
    /// buffer for the reply.
    Receiving(Multipart),
    /// The state was taken out by an operation and not restored: after the
    /// upstream stream ended or an operation failed.
    InPoll,
}

/// What the stream of outgoing requests yielded when polled.
pub enum StreamEvent {
    /// The next request to send.
    Item(Multipart),
    /// No request is available yet.
    Pending,
    /// The stream is exhausted; the requester is done.
    End,
}

/// What one poll of the requester yields.
#[derive(Debug)]
pub enum ReqPoll {
    /// A whole reply to the previous request.
    Reply(Multipart),
    /// No progress; poll again when woken.
    Pending,
    /// The upstream stream ended; no further request will be sent.
    Finished,
    /// Fatal failure; the cycle is over.
    Failed(TmqError),
}

/// The phase a driver observes, to pick the next operation: poll the
/// upstream stream, drive the send, or drive the receive.
#[derive(Clone, Copy, Debug, PartialEq, Eq, Structural)]
pub enum Phase {
    /// The machine waits on the upstream stream.
    BeginSend,
    /// The machine waits on the socket's writable condition.
    Sending,
    /// The machine waits on the socket's readable condition.
    Receiving,
    /// The machine is finished or failed.
    InPoll,
}

/// The requester machine. Besides its protocol state it tracks, in ghost
/// form, how many sends and how many replies have completed, which is what
/// the strict-alternation law is stated over.
pub struct Req {
    state: State,
    sends: Ghost<nat>,
    replies: Ghost<nat>,
}

impl Req {
    /// The current protocol state.
    pub closed spec fn state(&self) -> State {
        self.state
    }

    /// How many request sends have completed.
    pub closed spec fn sends(&self) -> nat {
        self.sends@
    }

    /// How many replies have been received whole.
    pub closed spec fn replies(&self) -> nat {
        self.replies@
    }

    /// The machine's invariant, tying the protocol state to the completion
    /// counts: awaiting or pushing a request means sends and replies are
    /// level, awaiting a reply means exactly one send is unanswered.
    pub open spec fn wf(&self) -> bool {
        match self.state() {
            State::BeginSend => self.sends() == self.replies(),
            State::Sending(_) => self.sends() == self.replies(),
            State::Receiving(_) => self.sends() == self.replies() + 1,
            State::InPoll => self.replies() <= self.sends() <= self.replies() + 1,
        }
    }

    /// The phase the machine is in, for a driver to dispatch on.
    pub fn phase(&self) -> (p: Phase)
        ensures
            p == Phase::BeginSend <==> self.state() is BeginSend,
            p == Phase::Sending <==> self.state() is Sending,
            p == Phase::Receiving <==> self.state() is Receiving,
            p == Phase::InPoll <==> self.state() is InPoll,
    {
        match &self.state {
            State::BeginSend => Phase::BeginSend,
            State::Sending(_) => Phase::Sending,
            State::Receiving(_) => Phase::Receiving,
            State::InPoll => Phase::InPoll,
        }
    }

    /// A fresh requester waits for the first request.
    pub fn new() -> (q: Req)
        ensures
            q.state() is BeginSend,
            q.sends() == 0,
            q.replies() == 0,
            q.wf(),
    {
        Req { state: State::BeginSend, sends: Ghost(0), replies: Ghost(0) }
    }

    /// Feeds the upstream stream's poll outcome at the start of a cycle: a
    /// request arms the send, no request leaves the machine waiting, and an
    /// exhausted stream finishes the requester.
    pub fn on_stream(&mut self, ev: StreamEvent) -> (r: ReqPoll)
        requires
            old(self).state() is BeginSend,
            old(self).wf(),
        ensures
            final(self).wf(),
            final(self).sends() == old(self).sends(),
            final(self).replies() == old(self).replies(),
            match ev {
                StreamEvent::Item(m) => {
                    &&& r is Pending
                    &&& final(self).state() matches State::Sending(b) && b@ == m@
                },
                StreamEvent::Pending => {
                    &&& r is Pending
                    &&& final(self).state() is BeginSend
                },
                StreamEvent::End => {
                    &&& r is Finished
                    &&& final(self).state() is InPoll
                },
            },
    {
        match ev {
            StreamEvent::Item(m) => {
                self.state = State::Sending(m);
                ReqPoll::Pending
            }
            StreamEvent::Pending => ReqPoll::Pending,
            StreamEvent::End => {
                self.state = State::InPoll;
                ReqPoll::Finished
            }
        }
    }

    /// One attempt to push the pending request out. Completing the send is
    /// the only way into `Receiving`: the machine then awaits the reply and
    /// no further send is enabled until that reply completes.
    pub fn poll_send(&mut self, sock: &mut SimSocket) -> (r: ReqPoll)
        requires
            old(self).state() is Sending,
            old(self).wf(),
        ensures
            final(sock).cap() == old(sock).cap(),
            final(sock).fault_code() == old(sock).fault_code(),
            final(self).wf(),
            final(self).replies() == old(self).replies(),
            final(self).state() is Receiving ==> final(self).sends() == old(self).sends() + 1,
            !(final(self).state() is Receiving) ==> final(self).sends() == old(self).sends(),
            old(self).state() matches State::Sending(b) ==> match r {
                ReqPoll::Pending => {
                    ||| (final(self).state() matches State::Receiving(a) && a@.len() == 0
                        && flush_post(
                        old(sock)@,
                        b@,
                        old(sock).cap(),
                        old(sock).fault_code(),
                        final(sock)@,
                        Seq::<Seq<u8>>::empty(),
                        PollSend::Ready,
                    ))
                    ||| (final(self).state() matches State::Sending(b1) && flush_post(
                        old(sock)@,
                        b@,
                        old(sock).cap(),
                        old(sock).fault_code(),
                        final(sock)@,
                        b1@,
                        PollSend::Pending,
                    ))
                },
                ReqPoll::Failed(e) => {
                    &&& final(self).state() is InPoll
                    &&& exists|b1: Seq<Seq<u8>>|
                        flush_post(
                            old(sock)@,
                            b@,
                            old(sock).cap(),
                            old(sock).fault_code(),
                            final(sock)@,
                            b1,
                            PollSend::Failed(e),
                        )
                },
                ReqPoll::Reply(_) => false,
                ReqPoll::Finished => false,
            },
    {
        let mut cur = State::InPoll;
        core::mem::swap(&mut self.state, &mut cur);
        match cur {
            State::Sending(mut b) => {
                let ghost b0 = b@;
                match multipart_flush(sock, &mut b) {
                    PollSend::Ready => {
                        proof {
                            assert(b@ =~= Seq::<Seq<u8>>::empty());
                        }
                        self.state = State::Receiving(Multipart::new());
                        self.sends = Ghost(self.sends@ + 1);
                        ReqPoll::Pending
                    }
                    PollSend::Pending => {
                        self.state = State::Sending(b);
                        ReqPoll::Pending
                    }
                    PollSend::Failed(e) => {
                        proof {
                            assert(flush_post(
                                old(sock)@,
                                b0,
                                old(sock).cap(),
                                old(sock).fault_code(),
                                sock@,
                                b@,
                                PollSend::Failed(e),
                            ));
                        }
                        ReqPoll::Failed(e)
                    }
                }
            }
            _ => {
                proof {
                    assert(false);
                }
                ReqPoll::Pending
            }
        }
    }

    /// One attempt to receive the reply. Completing it is the only way back
    /// to `BeginSend`, so the next send can only follow a whole reply.
    pub fn poll_recv(&mut self, sock: &mut SimSocket) -> (r: ReqPoll)
        requires
            old(self).state() is Receiving,
            old(self).wf(),
            wire_ok(old(sock)@),
        ensures
            final(sock).cap() == old(sock).cap(),
            final(sock).fault_code() == old(sock).fault_code(),
            final(self).wf(),
            final(self).sends() == old(self).sends(),
            final(self).state() is BeginSend ==> final(self).replies() == old(self).replies() + 1,
            !(final(self).state() is BeginSend) ==> final(self).replies() == old(self).replies(),
            old(self).state() matches State::Receiving(a0) ==> match r {
                ReqPoll::Reply(m) => {
                    &&& recv_post(
                        old(sock)@,
                        old(sock).fault_code(),
                        final(sock)@,
                        PollRecv::Ready(m),
                    )
                    &&& final(self).state() is BeginSend
                },
                ReqPoll::Pending => {
                    &&& recv_post(old(sock)@, old(sock).fault_code(), final(sock)@, PollRecv::Pending)
                    &&& final(self).state() matches State::Receiving(a1) && a1@ == a0@
                },
                ReqPoll::Failed(e) => {
                    &&& recv_post(
                        old(sock)@,
                        old(sock).fault_code(),
                        final(sock)@,
                        PollRecv::Failed(e),
                    )
                    &&& final(self).state() is InPoll
                },
                ReqPoll::Finished => false,
            },
    {
        let mut cur = State::InPoll;
        core::mem::swap(&mut self.state, &mut cur);
        match cur {
            State::Receiving(a) => {
                match multipart_recv(sock) {
                    PollRecv::Ready(m) => {
                        self.state = State::BeginSend;
                        self.replies = Ghost(self.replies@ + 1);
                        ReqPoll::Reply(m)
                    }
                    PollRecv::Pending => {
                        self.state = State::Receiving(a);
                        ReqPoll::Pending
                    }
                    PollRecv::Failed(e) => ReqPoll::Failed(e),
                }
            }
            _ => {
                proof {
                    assert(false);
                }
                ReqPoll::Pending
            }
        }
    }
}

/// Strict alternation: sends and replies interleave one for one. In every
/// reachable requester state the number of completed sends either equals the
/// number of received replies — and then only a send can complete next,
/// since the receive operation demands the `Receiving` state — or exceeds
/// it by exactly one, and then only a receive can complete next. Two sends,
/// or two receives, can never complete in a row.
pub proof fn lemma_strict_alternation(q: Req)
    requires
        q.wf(),
    ensures
        q.replies() <= q.sends() <= q.replies() + 1,
        q.state() is Receiving <==> q.sends() == q.replies() + 1 && !(q.state() is InPoll),
        q.state() is BeginSend || q.state() is Sending ==> q.sends() == q.replies(),
{
}

} // verus!
