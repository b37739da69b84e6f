//! The responder poll machine: the mirror image of the requester.
//!
//! The cycle runs receive → respond → send: a whole request is received,
//! handed to the application's responder, and the computed reply is sent to
//! completion before the next request can be received. As in
//! [`crate::req`], the alternation is carried by the state: each operation
//! is enabled in exactly one state and completing it moves the machine on,
//! so a reply can never be sent twice nor a request received twice in a row.
//!
//! The responder itself (a future in an application) runs with whoever
//! drives the machine; its result enters through [`Rep::on_reply`].

use vstd::prelude::*;

use crate::error::TmqError;
use crate::message::Multipart;
use crate::poll::{flush_post, multipart_flush, multipart_recv, recv_post, PollRecv, PollSend};
use crate::sim::SimSocket;
use crate::wire::wire_ok;

verus! {

/// Where the responder stands in its receive/respond/send cycle.
pub enum State {
    /// Awaiting the next request; holds the scratch assembly buffer.
    Receiving(Multipart),
    /// A request was handed to the responder; its reply is awaited.
    RunningFuture,
    /// The reply is being pushed out; holds its unsent frames.
    Sending(Multipart),
    /// The state was taken out by an operation and not restored: after a
    /// failure.
    InPoll,
}

/// What one poll of the responder yields.
#[derive(Debug)]
pub enum RepPoll {
    /// A whole request, to be handed to the responder.
    Request(Multipart),
    /// No progress; poll again when woken.
    Pending,
    /// Fatal failure; the cycle is over.
    Failed(TmqError),
}

/// The phase a driver observes, to pick the next operation: drive the
/// receive, run the responder, or drive the send.
#[derive(Clone, Copy, Debug, PartialEq, Eq, Structural)]
pub enum Phase {
    /// The machine waits on the socket's readable condition.
    Receiving,
    /// The machine waits on the responder's reply.
    RunningFuture,
    /// The machine waits on the socket's writable condition.
    Sending,
    /// The machine is finished or failed.
    InPoll,
}

/// The responder machine. Besides its protocol state it tracks, in ghost
/// form, how many requests have been received whole and how many replies
/// have been fully sent, which is what the strict-alternation law is stated
/// over.
pub struct Rep {
    state: State,
    requests: Ghost<nat>,
    replies: Ghost<nat>,
}

impl Rep {
    /// The current protocol state.
    pub closed spec fn state(&self) -> State {
        self.state
    }

    /// How many requests have been received whole.
    pub closed spec fn requests(&self) -> nat {
        self.requests@
    }

    /// How many replies have been fully sent.
    pub closed spec fn replies(&self) -> nat {
        self.replies@
    }

    /// The machine's invariant, tying the protocol state to the completion
    /// counts: awaiting a request means requests and replies are level,
    /// computing or pushing a reply means exactly one request is unanswered.
    pub open spec fn wf(&self) -> bool {
        match self.state() {
            State::Receiving(_) => self.requests() == self.replies(),
            State::RunningFuture => self.requests() == self.replies() + 1,
            State::Sending(_) => self.requests() == self.replies() + 1,
            State::InPoll => self.replies() <= self.requests() <= self.replies() + 1,
        }
    }

    /// The phase the machine is in, for a driver to dispatch on.
    pub fn phase(&self) -> (p: Phase)
        ensures
            p == Phase::Receiving <==> self.state() is Receiving,
            p == Phase::RunningFuture <==> self.state() is RunningFuture,
            p == Phase::Sending <==> self.state() is Sending,
            p == Phase::InPoll <==> self.state() is InPoll,
    {
        match &self.state {
            State::Receiving(_) => Phase::Receiving,
            State::RunningFuture => Phase::RunningFuture,
            State::Sending(_) => Phase::Sending,
            State::InPoll => Phase::InPoll,
        }
    }

    /// A fresh responder awaits the first request.
    pub fn new() -> (p: Rep)
        ensures
            p.state() matches State::Receiving(a) && a@.len() == 0,
            p.requests() == 0,
            p.replies() == 0,
            p.wf(),
    {
        Rep { state: State::Receiving(Multipart::new()), requests: Ghost(0), replies: Ghost(0) }
    }

    /// One attempt to receive a request. Completing it hands the request out
    /// and moves to `RunningFuture`: no receive is enabled again until the
    /// reply has been computed and fully sent.
    pub fn poll_recv(&mut self, sock: &mut SimSocket) -> (r: RepPoll)
        requires
            old(self).state() is Receiving,
            old(self).wf(),
            wire_ok(old(sock)@),
        ensures
            final(sock).cap() == old(sock).cap(),
            final(sock).fault_code() == old(sock).fault_code(),
            final(self).wf(),
            final(self).replies() == old(self).replies(),
            final(self).state() is RunningFuture ==> final(self).requests() == old(self).requests()
                + 1,
            !(final(self).state() is RunningFuture) ==> final(self).requests() == old(
                self,
            ).requests(),
            old(self).state() matches State::Receiving(a0) ==> match r {
                RepPoll::Request(m) => {
                    &&& recv_post(
                        old(sock)@,
                        old(sock).fault_code(),
                        final(sock)@,
                        PollRecv::Ready(m),
                    )
                    &&& final(self).state() is RunningFuture
                },
                RepPoll::Pending => {
                    &&& recv_post(old(sock)@, old(sock).fault_code(), final(sock)@, PollRecv::Pending)
                    &&& final(self).state() matches State::Receiving(a1) && a1@ == a0@
                },
                RepPoll::Failed(e) => {
                    &&& recv_post(
                        old(sock)@,
                        old(sock).fault_code(),
                        final(sock)@,
                        PollRecv::Failed(e),
                    )
                    &&& final(self).state() is InPoll
                },
            },
    {
        let mut cur = State::InPoll;
        core::mem::swap(&mut self.state, &mut cur);
        match cur {
            State::Receiving(a) => {
                match multipart_recv(sock) {
                    PollRecv::Ready(m) => {
                        self.state = State::RunningFuture;
                        self.requests = Ghost(self.requests@ + 1);
                        RepPoll::Request(m)
                    }
                    PollRecv::Pending => {
                        self.state = State::Receiving(a);
                        RepPoll::Pending
                    }
                    PollRecv::Failed(e) => RepPoll::Failed(e),
                }
            }
            _ => {
                proof {
                    assert(false);
                }
                RepPoll::Pending
            }
        }
    }

    /// The responder finished computing: its reply arms the send.
    pub fn on_reply(&mut self, reply: Multipart)
        requires
            old(self).state() is RunningFuture,
            old(self).wf(),
        ensures
            final(self).state() matches State::Sending(b) && b@ == reply@,
            final(self).wf(),
            final(self).requests() == old(self).requests(),
            final(self).replies() == old(self).replies(),
    {
        self.state = State::Sending(reply);
    }

    /// One attempt to push the reply out. Completing the send is the only
    /// way back to `Receiving`, so the next request can only follow a whole
    /// reply.
    pub fn poll_send(&mut self, sock: &mut SimSocket) -> (r: RepPoll)
        requires
            old(self).state() is Sending,
            old(self).wf(),
        ensures
            final(sock).cap() == old(sock).cap(),
            final(sock).fault_code() == old(sock).fault_code(),
            final(self).wf(),
            final(self).requests() == old(self).requests(),
            final(self).state() is Receiving ==> final(self).replies() == old(self).replies() + 1,
            !(final(self).state() is Receiving) ==> final(self).replies() == old(self).replies(),
            old(self).state() matches State::Sending(b) ==> match r {
                RepPoll::Pending => {
                    ||| (final(self).state() matches State::Receiving(a) && a@.len() == 0
                        && flush_post(
                        old(sock)@,
                        b@,
                        old(sock).cap(),
                        old(sock).fault_code(),
                        final(sock)@,
                        Seq::<Seq<u8>>::empty(),
                        PollSend::Ready,
                    ))
                    ||| (final(self).state() matches State::Sending(b1) && flush_post(
                        old(sock)@,
                        b@,
                        old(sock).cap(),
                        old(sock).fault_code(),
                        final(sock)@,
                        b1@,
                        PollSend::Pending,
                    ))
                },
                RepPoll::Failed(e) => {
                    &&& final(self).state() is InPoll
                    &&& exists|b1: Seq<Seq<u8>>|
                        flush_post(
                            old(sock)@,
                            b@,
                            old(sock).cap(),
                            old(sock).fault_code(),
                            final(sock)@,
                            b1,
                            PollSend::Failed(e),
                        )
                },
                RepPoll::Request(_) => false,
            },
    {
        let mut cur = State::InPoll;
        core::mem::swap(&mut self.state, &mut cur);
        match cur {
            State::Sending(mut b) => {
                let ghost b0 = b@;
                match multipart_flush(sock, &mut b) {
                    PollSend::Ready => {
                        proof {
                            assert(b@ =~= Seq::<Seq<u8>>::empty());
                        }
                        self.state = State::Receiving(Multipart::new());
                        self.replies = Ghost(self.replies@ + 1);
                        RepPoll::Pending
                    }
                    PollSend::Pending => {
                        self.state = State::Sending(b);
                        RepPoll::Pending
                    }
                    PollSend::Failed(e) => {
                        proof {
                            assert(flush_post(
                                old(sock)@,
                                b0,
                                old(sock).cap(),
                                old(sock).fault_code(),
                                sock@,
                                b@,
                                PollSend::Failed(e),
                            ));
                        }
                        RepPoll::Failed(e)
                    }
                }
            }
            _ => {
                proof {
                    assert(false);
                }
                RepPoll::Pending
            }
        }
    }
}

/// Strict alternation, responder side: received requests and sent replies
/// interleave one for one. In every reachable responder state the number of
/// whole requests taken in either equals the number of replies sent — and
/// then only a receive can complete next, since sending demands the
/// `Sending` state — or exceeds it by exactly one, and then only the reply
/// can go out. Two receives, or two replies, can never complete in a row.
pub proof fn lemma_strict_alternation(p: Rep)
    requires
        p.wf(),
    ensures
        p.replies() <= p.requests() <= p.replies() + 1,
        p.state() is Receiving ==> p.requests() == p.replies(),
        p.state() is RunningFuture || p.state() is Sending ==> p.requests() == p.replies() + 1,
{
}

} // verus!
