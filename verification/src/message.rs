use std::collections::VecDeque;
use vstd::prelude::*;

verus! {

/// One logical message: an ordered sequence of binary frames.
///
/// A multipart is the unit of atomicity for send and receive: the transport
/// delivers all of its frames together or none of them. The frames sit in a
/// deque so that draining a send buffer and consuming a received message can
/// both pop from the front cheaply.
///
/// A fully received multipart is never empty; an empty multipart only occurs
/// as the transient "not yet started" state of an assembly buffer, or as a
/// send buffer that has been completely flushed.
#[derive(Debug)]
pub struct Multipart {
    frames: VecDeque<Vec<u8>>,
}

impl View for Multipart {
    type V = Seq<Seq<u8>>;

    closed spec fn view(&self) -> Seq<Seq<u8>> {
        Seq::new(self.frames@.len(), |i: int| self.frames@[i]@)
    }
}

impl Multipart {
    /// Creates an empty multipart.
    pub fn new() -> (m: Multipart)
        ensures
            m@ == Seq::<Seq<u8>>::empty(),
    {
        let m = Multipart { frames: VecDeque::new() };
        proof {
            assert(m@ =~= Seq::<Seq<u8>>::empty());
        }
        m
    }

    /// Builds a multipart from a vector of frames, in order.
    pub fn from_frames(frames: Vec<Vec<u8>>) -> (m: Multipart)
        ensures
            m@.len() == frames@.len(),
            forall|i: int| 0 <= i < frames@.len() ==> m@[i] == frames@[i]@,
    {
        let ghost all = frames@;
        let mut m = Multipart::new();
        let mut rest = frames;
        let n: usize = rest.len();
        let mut i: usize = 0;
        proof {
            assert(rest@ =~= all.subrange(0, n as int));
        }
        while i < n
            invariant
                i <= n,
                n == all.len(),
                rest@ == all.subrange(i as int, n as int),
                m@.len() == i,
                forall|j: int| 0 <= j < i ==> m@[j] == all[j]@,
            decreases n - i,
        {
            let frame = rest.remove(0);
            proof {
                assert(frame@ == all[i as int]@);
            }
            m.push_back(frame);
            i += 1;
            proof {
                assert(rest@ =~= all.subrange(i as int, n as int));
            }
        }
        m
    }

    /// Hands the frames back out as a vector, in order.
    pub fn into_frames(self) -> (frames: Vec<Vec<u8>>)
        ensures
            frames@.len() == self@.len(),
            forall|i: int| 0 <= i < self@.len() ==> frames@[i]@ == self@[i],
    {
        let mut m = self;
        let mut frames: Vec<Vec<u8>> = Vec::new();
        let ghost all = m@;
        loop
            invariant
                all == self@,
                frames@.len() + m@.len() == all.len(),
                forall|j: int| 0 <= j < frames@.len() ==> frames@[j]@ == all[j],
                forall|j: int| 0 <= j < m@.len() ==> m@[j] == all[frames@.len() + j],
            decreases m@.len(),
        {
            match m.pop_front() {
                Some(frame) => {
                    frames.push(frame);
                }
                None => {
                    return frames;
                }
            }
        }
    }

    /// Returns `true` if the multipart contains no frames.
    pub fn is_empty(&self) -> (r: bool)
        ensures
            r == (self@.len() == 0),
    {
        self.frames.len() == 0
    }

    /// Returns the number of frames in the multipart.
    pub fn len(&self) -> (n: usize)
        ensures
            n == self@.len(),
    {
        self.frames.len()
    }

    /// Adds a frame to the front of the multipart.
    pub fn push_front(&mut self, item: Vec<u8>)
        ensures
            final(self)@ == seq![item@] + old(self)@,
    {
        self.frames.push_front(item);
        proof {
            assert(self@ =~= seq![item@] + old(self)@);
        }
    }

    /// Removes the first frame and returns it, or `None` if the multipart is
    /// empty.
    pub fn pop_front(&mut self) -> (r: Option<Vec<u8>>)
        ensures
            match r {
                Some(frame) => {
                    &&& old(self)@.len() > 0
                    &&& frame@ == old(self)@[0]
                    &&& final(self)@ == old(self)@.subrange(1, old(self)@.len() as int)
                },
                None => {
                    &&& old(self)@.len() == 0
                    &&& final(self)@ == old(self)@
                },
            },
    {
        let r = self.frames.pop_front();
        proof {
            if old(self)@.len() > 0 {
                assert(self@ =~= old(self)@.subrange(1, old(self)@.len() as int));
            } else {
                assert(self@ =~= old(self)@);
            }
        }
        r
    }

    /// Adds a frame to the back of the multipart.
    pub fn push_back(&mut self, item: Vec<u8>)
        ensures
            final(self)@ == old(self)@.push(item@),
    {
        self.frames.push_back(item);
        proof {
            assert(self@ =~= old(self)@.push(item@));
        }
    }

    /// Removes the last frame and returns it, or `None` if the multipart is
    /// empty.
    pub fn pop_back(&mut self) -> (r: Option<Vec<u8>>)
        ensures
            match r {
                Some(frame) => {
                    &&& old(self)@.len() > 0
                    &&& frame@ == old(self)@.last()
                    &&& final(self)@ == old(self)@.drop_last()
                },
                None => {
                    &&& old(self)@.len() == 0
                    &&& final(self)@ == old(self)@
                },
            },
    {
        let r = self.frames.pop_back();
        proof {
            if old(self)@.len() > 0 {
                assert(self@ =~= old(self)@.drop_last());
            } else {
                assert(self@ =~= old(self)@);
            }
        }
        r
    }

    /// Takes the frames out, leaving this multipart empty.
    pub fn take(&mut self) -> (m: Multipart)
        ensures
            m@ == old(self)@,
            final(self)@ == Seq::<Seq<u8>>::empty(),
    {
        let mut out = Multipart::new();
        core::mem::swap(self, &mut out);
        out
    }

    /// Borrows the frame at the given position.
    pub fn get(&self, i: usize) -> (frame: &Vec<u8>)
        requires
            i < self@.len(),
        ensures
            frame@ == self@[i as int],
    {
        &self.frames[i]
    }
}

impl Default for Multipart {
    /// The default multipart is empty.
    fn default() -> (m: Multipart)
        ensures
            m@ == Seq::<Seq<u8>>::empty(),
    {
        Multipart::new()
    }
}

impl PartialEq for Multipart {
    /// Two multiparts are equal when they hold the same frames in the same
    /// order.
    fn eq(&self, other: &Multipart) -> (r: bool) {
        if self.frames.len() != other.frames.len() {
            proof {
                assert(self@ != other@);
            }
            return false;
        }
        let n: usize = self.frames.len();
        let mut i: usize = 0;
        while i < n
            invariant
                i <= n,
                n == self@.len(),
                self@.len() == other@.len(),
                forall|j: int| 0 <= j < i ==> self@[j] == other@[j],
            decreases n - i,
        {
            if self.get(i) != other.get(i) {
                proof {
                    assert(self@[i as int] != other@[i as int]);
                    assert(self@ != other@);
                }
                return false;
            }
            proof {
                assert(self@[i as int] =~= other@[i as int]);
            }
            i += 1;
        }
        proof {
            assert(self@ =~= other@);
        }
        true
    }
}

impl Eq for Multipart {}

impl vstd::std_specs::cmp::PartialEqSpecImpl for Multipart {
    open spec fn obeys_eq_spec() -> bool {
        true
    }

    open spec fn eq_spec(&self, other: &Multipart) -> bool {
        self@ == other@
    }
}

} // verus!
