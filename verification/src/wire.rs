//! The mathematical model of the transport's frame queue.
//!
//! A wire is the sequence of frames queued between two peers, each frame a
//! byte sequence paired with its more-follows flag. A multipart of `n` frames
//! appears on the wire as its frames in order, flagged more-follows on all
//! but the last. The lemmas here are the crate's central laws: receiving is
//! atomic (a consumer sees all frames of a message, in order, or none), and
//! the order of messages put on one wire is the order they come off it.

use vstd::prelude::*;

verus! {

/// The frames a multipart `m` contributes to the wire: every frame flagged
/// more-follows except the last.
pub open spec fn encode(m: Seq<Seq<u8>>) -> Seq<(Seq<u8>, bool)> {
    Seq::new(m.len(), |i: int| (m[i], i + 1 < m.len()))
}

/// The wire contents after a sequence of multiparts is sent in order.
pub open spec fn encode_all(ms: Seq<Seq<Seq<u8>>>) -> Seq<(Seq<u8>, bool)>
    decreases ms.len(),
{
    if ms.len() == 0 {
        Seq::<(Seq<u8>, bool)>::empty()
    } else {
        encode(ms.first()) + encode_all(ms.drop_first())
    }
}

/// Frames all flagged more-follows: the shape of an unfinished message's
/// prefix on the wire.
pub open spec fn open_frames(fs: Seq<Seq<u8>>) -> Seq<(Seq<u8>, bool)> {
    Seq::new(fs.len(), |i: int| (fs[i], true))
}

/// Number of frames up to and including the first frame whose more-follows
/// flag is clear; the whole wire if no frame ends a message.
pub open spec fn msg_len(w: Seq<(Seq<u8>, bool)>) -> nat
    decreases w.len(),
{
    if w.len() == 0 {
        0
    } else if !w.first().1 {
        1
    } else {
        1 + msg_len(w.drop_first())
    }
}

/// The frames of the first complete message on the wire.
pub open spec fn first_msg(w: Seq<(Seq<u8>, bool)>) -> Seq<Seq<u8>> {
    Seq::new(msg_len(w), |i: int| w[i].0)
}

/// The wire with its first complete message removed.
pub open spec fn rest_after_msg(w: Seq<(Seq<u8>, bool)>) -> Seq<(Seq<u8>, bool)> {
    w.skip(msg_len(w) as int)
}

/// A wire is well formed when it ends at a message boundary. The transport
/// delivers a multipart all at once, so between whole operations the queue
/// never ends with a dangling more-follows frame.
pub open spec fn wire_ok(w: Seq<(Seq<u8>, bool)>) -> bool {
    w.len() > 0 ==> !w.last().1
}

/// All complete messages on the wire, in order. A trailing incomplete
/// message (absent when the wire is well formed) is dropped.
pub open spec fn msgs_of(w: Seq<(Seq<u8>, bool)>) -> Seq<Seq<Seq<u8>>> {
    gather(w, Seq::<Seq<u8>>::empty())
}

/// Walks the wire front to back, accumulating the frames of the message
/// being crossed, and emitting it at each cleared more-follows flag.
pub open spec fn gather(w: Seq<(Seq<u8>, bool)>, acc: Seq<Seq<u8>>) -> Seq<Seq<Seq<u8>>>
    decreases w.len(),
{
    if w.len() == 0 {
        Seq::<Seq<Seq<u8>>>::empty()
    } else if w.first().1 {
        gather(w.drop_first(), acc.push(w.first().0))
    } else {
        seq![acc.push(w.first().0)] + gather(w.drop_first(), Seq::<Seq<u8>>::empty())
    }
}

/// The wire with its first `k` complete messages removed.
pub open spec fn drop_msgs(w: Seq<(Seq<u8>, bool)>, k: int) -> Seq<(Seq<u8>, bool)>
    decreases k,
{
    if k <= 0 {
        w
    } else {
        drop_msgs(rest_after_msg(w), k - 1)
    }
}

/// The frames the first `k` frames of multipart `m` contribute to the wire:
/// what a send that is cut off after `k` of `m.len()` frames leaves behind.
pub open spec fn encode_prefix(m: Seq<Seq<u8>>, k: int) -> Seq<(Seq<u8>, bool)> {
    Seq::new(k as nat, |i: int| (m[i], i + 1 < m.len()))
}

/// The first message never reaches past the end of the wire.
pub proof fn lemma_msg_len_le(w: Seq<(Seq<u8>, bool)>)
    ensures
        msg_len(w) <= w.len(),
    decreases w.len(),
{
    if w.len() > 0 && w.first().1 {
        lemma_msg_len_le(w.drop_first());
    }
}

/// Reading the first message off a wire that starts with `fs.len()` frames of
/// an unfinished message continues into what follows.
pub proof fn lemma_open_prefix(fs: Seq<Seq<u8>>, w: Seq<(Seq<u8>, bool)>)
    requires
        w.len() > 0,
    ensures
        msg_len(open_frames(fs) + w) == fs.len() + msg_len(w),
        first_msg(open_frames(fs) + w) == fs + first_msg(w),
        rest_after_msg(open_frames(fs) + w) == rest_after_msg(w),
    decreases fs.len(),
{
    let ow = open_frames(fs) + w;
    if fs.len() == 0 {
        assert(ow =~= w);
        assert(first_msg(ow) =~= fs + first_msg(w));
        assert(rest_after_msg(ow) =~= rest_after_msg(w));
    } else {
        assert(ow.first() == (fs.first(), true));
        assert(ow.drop_first() =~= open_frames(fs.drop_first()) + w);
        lemma_open_prefix(fs.drop_first(), w);
        lemma_msg_len_le(w);
        assert(first_msg(ow) =~= fs + first_msg(w));
        assert(rest_after_msg(ow) =~= rest_after_msg(w));
    }
}

/// Atomicity of receive: on a wire that begins with the encoding of a
/// non-empty multipart `m`, the first message read off the wire is exactly
/// `m` — all of its frames, in their original order — and what follows `m`
/// is left untouched. A consumer can never observe a proper prefix of `m`.
pub proof fn lemma_receive_atomic(m: Seq<Seq<u8>>, rest: Seq<(Seq<u8>, bool)>)
    requires
        m.len() > 0,
    ensures
        msg_len(encode(m) + rest) == m.len(),
        first_msg(encode(m) + rest) == m,
        rest_after_msg(encode(m) + rest) == rest,
{
    let w = encode(m) + rest;
    assert(encode(m) =~= open_frames(m.drop_last()).push((m.last(), false)));
    assert(w =~= open_frames(m.drop_last()) + (seq![(m.last(), false)] + rest));
    let tail = seq![(m.last(), false)] + rest;
    assert(msg_len(tail) == 1);
    lemma_open_prefix(m.drop_last(), tail);
    assert(first_msg(tail) =~= seq![m.last()]);
    assert(first_msg(w) =~= m);
    assert(rest_after_msg(tail) =~= rest);
}

/// A well-formed wire stays well formed when its first message is removed,
/// and removal takes at least one frame.
pub proof fn lemma_rest_wire_ok(w: Seq<(Seq<u8>, bool)>)
    requires
        wire_ok(w),
        w.len() > 0,
    ensures
        1 <= msg_len(w) <= w.len(),
        wire_ok(rest_after_msg(w)),
        rest_after_msg(w).len() < w.len(),
{
    lemma_msg_len_le(w);
    let r = rest_after_msg(w);
    if r.len() > 0 {
        assert(r.last() == w.last());
    }
}

/// Unfolds `msgs_of` one message at a time on a well-formed wire.
pub proof fn lemma_msgs_of_unfold(w: Seq<(Seq<u8>, bool)>)
    requires
        wire_ok(w),
        w.len() > 0,
    ensures
        msgs_of(w) == seq![first_msg(w)] + msgs_of(rest_after_msg(w)),
{
    lemma_gather(w, Seq::<Seq<u8>>::empty());
    assert(Seq::<Seq<u8>>::empty() + first_msg(w) =~= first_msg(w));
    assert(msgs_of(w) =~= seq![first_msg(w)] + msgs_of(rest_after_msg(w)));
}

/// `gather` on a well-formed wire emits the accumulated frames plus the
/// first message, then the remaining messages.
proof fn lemma_gather(w: Seq<(Seq<u8>, bool)>, acc: Seq<Seq<u8>>)
    requires
        wire_ok(w),
        w.len() > 0,
    ensures
        gather(w, acc) == seq![acc + first_msg(w)] + gather(rest_after_msg(w), Seq::<Seq<u8>>::empty()),
    decreases w.len(),
{
    lemma_msg_len_le(w);
    if !w.first().1 {
        assert(first_msg(w) =~= seq![w.first().0]);
        assert(acc.push(w.first().0) =~= acc + first_msg(w));
        assert(rest_after_msg(w) =~= w.drop_first());
    } else {
        let df = w.drop_first();
        assert(df.len() > 0) by {
            assert(w.last() == df.last() || w.len() == 1);
        }
        assert(df.last() == w.last());
        lemma_gather(df, acc.push(w.first().0));
        lemma_msg_len_le(df);
        assert(acc.push(w.first().0) + first_msg(df) =~= acc + first_msg(w)) by {
            assert(first_msg(w) =~= seq![w.first().0] + first_msg(df));
        }
        assert(rest_after_msg(w) =~= rest_after_msg(df));
    }
}

/// Within the first message, every more-follows flag is set except the
/// last, which ends it.
proof fn lemma_msg_len_flags(w: Seq<(Seq<u8>, bool)>)
    requires
        wire_ok(w),
        w.len() > 0,
    ensures
        forall|i: int| 0 <= i < msg_len(w) - 1 ==> w[i].1,
        !w[msg_len(w) - 1].1,
    decreases w.len(),
{
    lemma_msg_len_le(w);
    if w.first().1 {
        let df = w.drop_first();
        assert(df.len() > 0) by {
            if w.len() == 1 {
                assert(w.last() == w.first());
            }
        }
        assert(df.last() == w.last());
        lemma_msg_len_flags(df);
        assert forall|i: int| 0 <= i < msg_len(w) - 1 implies w[i].1 by {
            if i > 0 {
                assert(df[i - 1].1);
            }
        }
        assert(w[msg_len(w) - 1] == df[msg_len(df) - 1]);
    }
}

/// A well-formed wire is exactly the encoding of its own messages: nothing
/// on it lies outside a whole message, and each message is non-empty.
pub proof fn lemma_wire_complete(w: Seq<(Seq<u8>, bool)>)
    requires
        wire_ok(w),
    ensures
        encode_all(msgs_of(w)) == w,
        forall|i: int| 0 <= i < msgs_of(w).len() ==> #[trigger] msgs_of(w)[i].len() > 0,
    decreases w.len(),
{
    if w.len() == 0 {
        assert(msgs_of(w) =~= Seq::<Seq<Seq<u8>>>::empty());
        assert(encode_all(msgs_of(w)) =~= w);
    } else {
        let rest = rest_after_msg(w);
        lemma_msgs_of_unfold(w);
        lemma_rest_wire_ok(w);
        lemma_msg_len_flags(w);
        lemma_wire_complete(rest);
        let ms = msgs_of(w);
        assert(ms.first() == first_msg(w));
        assert(ms.drop_first() =~= msgs_of(rest));
        assert(encode(first_msg(w)) + rest =~= w);
        assert(encode_all(ms) =~= w);
        assert forall|i: int| 0 <= i < ms.len() implies #[trigger] ms[i].len() > 0 by {
            if i > 0 {
                assert(ms[i] == msgs_of(rest)[i - 1]);
            }
        }
    }
}

/// Sending one non-empty multipart appends exactly that message to the
/// wire's message sequence and keeps the wire well formed. Together with
/// [`lemma_receive_atomic`], which removes exactly the first message, this
/// pins the whole producer/consumer exchange: messages come off one
/// endpoint in the order they were put on the other.
pub proof fn lemma_send_appends(w: Seq<(Seq<u8>, bool)>, m: Seq<Seq<u8>>)
    requires
        wire_ok(w),
        m.len() > 0,
    ensures
        msgs_of(w + encode(m)) == msgs_of(w).push(m),
        wire_ok(w + encode(m)),
{
    lemma_wire_complete(w);
    lemma_encode_all_push(msgs_of(w), m);
    assert(w + encode(m) == encode_all(msgs_of(w).push(m)));
    lemma_order_preserved(msgs_of(w).push(m));
    lemma_encode_all_wire_ok(msgs_of(w).push(m));
}

/// The encoding of a sequence of non-empty multiparts is a well-formed wire.
pub proof fn lemma_encode_all_wire_ok(ms: Seq<Seq<Seq<u8>>>)
    requires
        forall|i: int| 0 <= i < ms.len() ==> ms[i].len() > 0,
    ensures
        wire_ok(encode_all(ms)),
        encode_all(ms).len() == 0 <==> ms.len() == 0,
    decreases ms.len(),
{
    if ms.len() > 0 {
        lemma_encode_all_wire_ok(ms.drop_first());
        let w = encode_all(ms);
        let head = encode(ms.first());
        let tail = encode_all(ms.drop_first());
        assert(head.len() > 0);
        if tail.len() == 0 {
            assert(w.last() == head.last());
        } else {
            assert(w.last() == tail.last());
        }
    }
}

/// Order preservation: a consumer draining a wire onto which the multiparts
/// `ms` were sent, in order, observes exactly `ms`, in the same order. Each
/// receive removes the first message, so together with
/// [`lemma_receive_atomic`] this pins the whole exchange down.
pub proof fn lemma_order_preserved(ms: Seq<Seq<Seq<u8>>>)
    requires
        forall|i: int| 0 <= i < ms.len() ==> ms[i].len() > 0,
    ensures
        msgs_of(encode_all(ms)) == ms,
        drop_msgs(encode_all(ms), ms.len() as int) == Seq::<(Seq<u8>, bool)>::empty(),
    decreases ms.len(),
{
    let w = encode_all(ms);
    if ms.len() == 0 {
        assert(msgs_of(w) =~= ms);
    } else {
        let tail = encode_all(ms.drop_first());
        lemma_receive_atomic(ms.first(), tail);
        lemma_encode_all_wire_ok(ms);
        lemma_msgs_of_unfold(w);
        lemma_order_preserved(ms.drop_first());
        assert(rest_after_msg(w) == tail);
        assert(msgs_of(w) =~= ms);
        assert(drop_msgs(w, ms.len() as int) == drop_msgs(tail, ms.len() as int - 1)) by {
            assert(ms.len() as int > 0);
        }
    }
}

/// Sending one more multipart appends its encoding to the wire.
pub proof fn lemma_encode_all_push(ms: Seq<Seq<Seq<u8>>>, m: Seq<Seq<u8>>)
    ensures
        encode_all(ms.push(m)) == encode_all(ms) + encode(m),
    decreases ms.len(),
{
    if ms.len() == 0 {
        assert(ms.push(m).drop_first() =~= Seq::<Seq<Seq<u8>>>::empty());
        assert(ms.push(m).first() == m);
        assert(encode_all(Seq::<Seq<Seq<u8>>>::empty()) == Seq::<(Seq<u8>, bool)>::empty());
        assert(encode_all(ms.push(m)) == encode(m) + Seq::<(Seq<u8>, bool)>::empty());
        assert(encode_all(ms.push(m)) =~= encode_all(ms) + encode(m));
    } else {
        let first = ms.first();
        let rest = ms.drop_first();
        assert(ms.push(m).first() == first);
        assert(ms.push(m).drop_first() =~= rest.push(m));
        lemma_encode_all_push(rest, m);
        assert(encode_all(ms.push(m)) == encode(first) + encode_all(rest.push(m)));
        assert(encode_all(ms) == encode(first) + encode_all(rest));
        assert(encode(first) + (encode_all(rest) + encode(m)) =~= (encode(first) + encode_all(rest))
            + encode(m));
    }
}

/// A wire that starts with whole messages `ms` hands exactly `ms` out first:
/// its message sequence is `ms` followed by whatever `w` holds, and removing
/// `ms.len()` messages leaves exactly `w`.
pub proof fn lemma_encode_all_prefix(ms: Seq<Seq<Seq<u8>>>, w: Seq<(Seq<u8>, bool)>)
    requires
        forall|i: int| 0 <= i < ms.len() ==> ms[i].len() > 0,
        wire_ok(w),
    ensures
        msgs_of(encode_all(ms) + w) == ms + msgs_of(w),
        drop_msgs(encode_all(ms) + w, ms.len() as int) == w,
    decreases ms.len(),
{
    let whole = encode_all(ms) + w;
    if ms.len() == 0 {
        assert(whole =~= w);
        assert(msgs_of(whole) =~= ms + msgs_of(w));
    } else {
        let tail = encode_all(ms.drop_first()) + w;
        assert(whole =~= encode(ms.first()) + tail);
        lemma_receive_atomic(ms.first(), tail);
        lemma_encode_all_prefix(ms.drop_first(), w);
        assert(wire_ok(whole)) by {
            lemma_encode_all_wire_ok(ms);
            let e = encode_all(ms);
            if w.len() > 0 {
                assert(whole.last() == w.last());
            } else {
                assert(whole =~= e);
            }
        }
        lemma_msgs_of_unfold(whole);
        assert(msgs_of(whole) =~= ms + msgs_of(w));
        assert(drop_msgs(whole, ms.len() as int) == drop_msgs(tail, ms.len() as int - 1));
    }
}

} // verus!
