use vstd::prelude::*;
use crate::frame::Frame;

verus! {

/// The frame channel: a bounded FIFO carrying complete frames from the
/// producer to the presentation consumer. Both ends are non-blocking: a
/// publish into a full channel reports backpressure and the new frame is
/// dropped (oldest preserved, newest dropped), a poll of an empty channel
/// reports that no frame arrived. Staleness is preferred over ever stalling
/// the producer; within the channel, frames leave in publish order.
pub struct FrameChannel {
    capacity: usize,
    queue: Vec<Frame>,
}

impl View for FrameChannel {
    type V = Seq<Frame>;

    closed spec fn view(&self) -> Seq<Frame> {
        self.queue@
    }
}

impl FrameChannel {
    /// The bound the channel was created with.
    pub closed spec fn cap(self) -> nat {
        self.capacity as nat
    }

    /// The channel invariant: it holds at most `cap` frames, and the bound
    /// is positive.
    pub open spec fn inv(self) -> bool {
        self@.len() <= self.cap() && self.cap() >= 1
    }

    /// Establishes an empty channel with the given positive bound.
    pub fn new(capacity: usize) -> (c: FrameChannel)
        requires
            capacity >= 1,
        ensures
            c.inv(),
            c@ == Seq::<Frame>::empty(),
            c.cap() == capacity,
    {
        FrameChannel { capacity, queue: Vec::new() }
    }

    pub fn capacity(&self) -> (r: usize)
        ensures
            r == self.cap(),
    {
        self.capacity
    }

    pub fn len(&self) -> (r: usize)
        ensures
            r == self@.len(),
    {
        self.queue.len()
    }

    /// Producer side: tries to enqueue a frame without blocking. With room,
    /// the frame is appended and the call reports success; when the channel
    /// is full it reports backpressure and hands the frame back, to be
    /// dropped by the caller — the producer never retries or blocks.
    pub fn try_publish(&mut self, frame: Frame) -> (r: Result<(), Frame>)
        ensures
            final(self).cap() == old(self).cap(),
            final(self)@ == publish_spec(old(self)@, old(self).cap(), frame),
            old(self)@.len() < old(self).cap() ==> r == Ok::<(), Frame>(()),
            old(self)@.len() >= old(self).cap() ==> r == Err::<(), Frame>(frame),
            old(self).inv() ==> final(self).inv(),
    {
        if self.queue.len() < self.capacity {
            self.queue.push(frame);
            Ok(())
        } else {
            Err(frame)
        }
    }

    /// Consumer side: one non-blocking poll. From a non-empty channel it
    /// dequeues and returns the oldest frame; an empty channel yields `None`
    /// deterministically — never a stale or repeated frame — and the caller
    /// keeps showing whatever it showed before.
    pub fn try_poll(&mut self) -> (r: Option<Frame>)
        ensures
            final(self).cap() == old(self).cap(),
            r == polled_spec(old(self)@),
            final(self)@ == remaining_spec(old(self)@),
            old(self).inv() ==> final(self).inv(),
    {
        if self.queue.len() == 0 {
            None
        } else {
            let frame = self.queue.remove(0);
            proof {
                assert(old(self)@.remove(0) =~= old(self)@.drop_first());
            }
            Some(frame)
        }
    }
}

/// One publish attempt against a bound: appended when there is room, the
/// queue left untouched when there is none.
pub open spec fn publish_spec(q: Seq<Frame>, cap: nat, frame: Frame) -> Seq<Frame> {
    if q.len() < cap {
        q.push(frame)
    } else {
        q
    }
}

/// What one poll returns: the oldest queued frame, or nothing.
pub open spec fn polled_spec(q: Seq<Frame>) -> Option<Frame> {
    if q.len() == 0 {
        None
    } else {
        Some(q.first())
    }
}

/// What one poll leaves behind.
pub open spec fn remaining_spec(q: Seq<Frame>) -> Seq<Frame> {
    if q.len() == 0 {
        q
    } else {
        q.drop_first()
    }
}

/// The queue after a whole sequence of publish attempts into an initially
/// empty channel, with no poll in between.
pub open spec fn after_publishes(cap: nat, frames: Seq<Frame>) -> Seq<Frame>
    decreases frames.len(),
{
    if frames.len() == 0 {
        Seq::<Frame>::empty()
    } else {
        publish_spec(after_publishes(cap, frames.drop_last()), cap, frames.last())
    }
}

/// FIFO-under-drop law: however many frames are published into an empty
/// channel of bound `cap` with no intervening poll, the queue ends up
/// holding exactly the first `cap` of them, in publish order — so at most
/// `cap` frames can ever be delivered, and what is delivered preserves the
/// order in which it was published.
pub proof fn lemma_fifo_under_drop(cap: nat, frames: Seq<Frame>)
    ensures
        frames.len() <= cap ==> after_publishes(cap, frames) == frames,
        frames.len() > cap ==> after_publishes(cap, frames) == frames.take(cap as int),
    decreases frames.len(),
{
    if frames.len() == 0 {
        assert(after_publishes(cap, frames) =~= frames);
    } else {
        let head = frames.drop_last();
        lemma_fifo_under_drop(cap, head);
        if frames.len() <= cap {
            assert(after_publishes(cap, head).push(frames.last()) =~= frames);
        } else if frames.len() - 1 <= cap {
            assert(head =~= frames.take(cap as int));
        } else {
            assert(head.take(cap as int) =~= frames.take(cap as int));
        }
    }
}

/// The frames that `n` successive polls hand out, oldest first.
pub open spec fn polled_frames(q: Seq<Frame>, n: nat) -> Seq<Frame>
    decreases n,
{
    if n == 0 || q.len() == 0 {
        Seq::<Frame>::empty()
    } else {
        seq![q.first()] + polled_frames(q.drop_first(), (n - 1) as nat)
    }
}

/// Delivery-order law: polling a queue hands its frames out exactly in
/// queue order — `n` polls deliver the first `n` queued frames, and once
/// the queue is drained further polls deliver nothing at all.
pub proof fn lemma_polls_deliver_in_order(q: Seq<Frame>, n: nat)
    ensures
        n >= q.len() ==> polled_frames(q, n) == q,
        n < q.len() ==> polled_frames(q, n) == q.take(n as int),
    decreases n,
{
    if n == 0 || q.len() == 0 {
        if n >= q.len() {
            assert(polled_frames(q, n) =~= q);
        } else {
            assert(polled_frames(q, n) =~= q.take(n as int));
        }
    } else {
        lemma_polls_deliver_in_order(q.drop_first(), (n - 1) as nat);
        if n >= q.len() {
            assert(seq![q.first()] + q.drop_first() =~= q);
        } else {
            assert(seq![q.first()] + q.drop_first().take(n - 1) =~= q.take(n as int));
        }
    }
}

/// Round-trip law: a frame published into an empty channel is accepted, and
/// the next poll returns that very frame — the same value, hence the same
/// bits — leaving the channel empty again.
pub proof fn lemma_publish_poll_roundtrip(cap: nat, frame: Frame)
    requires
        cap >= 1,
    ensures
        polled_spec(publish_spec(Seq::<Frame>::empty(), cap, frame)) == Some(frame),
        remaining_spec(publish_spec(Seq::<Frame>::empty(), cap, frame)) == Seq::<Frame>::empty(),
{
    let q = publish_spec(Seq::<Frame>::empty(), cap, frame);
    assert(q == Seq::<Frame>::empty().push(frame));
    assert(remaining_spec(q) =~= Seq::<Frame>::empty());
}

} // verus!
