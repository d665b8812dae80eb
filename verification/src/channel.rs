//! The frame channel: a single-slot mailbox between one producer and one consumer.
//!
//! The producer publishes a frame after every tick; the consumer takes the current
//! frame whenever it redraws. The slot never queues: while a published frame has
//! not been taken yet, newer frames are dropped, so the producer never waits for
//! the consumer and the consumer only ever sees whole frames.
//!
//! The channel is a plain value. A host that shares it between threads guards it
//! with one lock and calls `publish` and `take` under that lock; each call is then
//! one atomic step of the model below.

use vstd::prelude::*;
use crate::frame::{clear_pixel, uniform, Frame, Pixel, FRAME_PIXELS};

verus! {

/// The mathematical state of the slot: the stored frame and whether it is
/// fresh, that is published and not yet taken.
pub ghost struct Slot {
    pub frame: Seq<Pixel>,
    pub fresh: bool,
}

/// One call on a channel, as it appears in a history of calls.
pub ghost enum Call {
    /// `publish` with the given frame.
    Publish(Seq<Pixel>),
    /// `take`.
    Take,
}

/// The slot of a channel on which nothing was published yet.
pub open spec fn empty_slot() -> Slot {
    Slot { frame: uniform(clear_pixel()), fresh: false }
}

/// The slot after `publish(frame)`: a fresh slot keeps its frame, any other
/// slot takes the new one and becomes fresh.
pub open spec fn after_publish(slot: Slot, frame: Seq<Pixel>) -> Slot {
    if slot.fresh {
        slot
    } else {
        Slot { frame, fresh: true }
    }
}

/// The slot after `take`: the frame stays, the slot is no longer fresh.
pub open spec fn after_take(slot: Slot) -> Slot {
    Slot { frame: slot.frame, fresh: false }
}

/// The slot after one call.
pub open spec fn after_call(slot: Slot, call: Call) -> Slot {
    match call {
        Call::Publish(frame) => after_publish(slot, frame),
        Call::Take => after_take(slot),
    }
}

/// The slot after a history of calls, applied in order.
pub open spec fn after_calls(slot: Slot, calls: Seq<Call>) -> Slot
    decreases calls.len(),
{
    if calls.len() == 0 {
        slot
    } else {
        after_call(after_calls(slot, calls.drop_last()), calls.last())
    }
}

/// The history that publishes each of `frames` in order, with no `take` between.
pub open spec fn publishes(frames: Seq<Seq<Pixel>>) -> Seq<Call> {
    Seq::new(frames.len(), |i: int| Call::Publish(frames[i]))
}

/// A single-slot frame mailbox with a drop-when-behind policy.
pub struct FrameChannel {
    stored: Frame,
    fresh: bool,
}

impl View for FrameChannel {
    type V = Slot;

    closed spec fn view(&self) -> Slot {
        Slot { frame: self.stored@, fresh: self.fresh }
    }
}

impl FrameChannel {
    /// A channel that holds a blank frame and waits for the first `publish`.
    pub fn new() -> (channel: FrameChannel)
        ensures
            channel@ == empty_slot(),
    {
        FrameChannel { stored: Frame::blank(), fresh: false }
    }

    /// Whether the stored frame was published and not taken yet.
    pub fn is_fresh(&self) -> (fresh: bool)
        ensures
            fresh == self@.fresh,
    {
        self.fresh
    }

    /// Whether the next `publish` will store its frame. A producer asks this
    /// before it renders, and skips the rendering when the answer is no.
    pub fn accepts(&self) -> (accepts: bool)
        ensures
            accepts == !self@.fresh,
    {
        !self.fresh
    }

    /// Offers `frame` to the consumer.
    ///
    /// An empty or consumed slot stores the frame and becomes fresh. A slot that
    /// is still fresh is left as it is and the new frame is dropped. Returns
    /// whether the frame was stored.
    pub fn publish(&mut self, frame: Frame) -> (stored: bool)
        ensures
            final(self)@ == after_publish(old(self)@, frame@),
            stored == !old(self)@.fresh,
    {
        if self.fresh {
            false
        } else {
            self.stored = frame;
            self.fresh = true;
            true
        }
    }

    /// Hands out a copy of the stored frame and marks the slot consumed, so that
    /// the next `publish` stores its frame. Taking again before the next
    /// `publish` returns the same frame once more. What is handed out is always
    /// a whole frame.
    pub fn take(&mut self) -> (frame: Frame)
        ensures
            frame@ == old(self)@.frame,
            frame@.len() == FRAME_PIXELS,
            final(self)@ == after_take(old(self)@),
    {
        self.fresh = false;
        self.stored.clone()
    }
}

/// No tearing: whatever the history of calls, the frame in the slot, which is
/// what the next `take` returns, is the frame the slot started with or equals,
/// as a whole, the frame of one of the `publish` calls in the history.
pub proof fn lemma_stored_frame_was_published(slot: Slot, calls: Seq<Call>)
    ensures
        after_calls(slot, calls).frame == slot.frame || exists|i: int|
            0 <= i < calls.len() && calls[i] == Call::Publish(after_calls(slot, calls).frame),
    decreases calls.len(),
{
    if calls.len() > 0 {
        let earlier = calls.drop_last();
        let before = after_calls(slot, earlier);
        let now = after_calls(slot, calls);
        lemma_stored_frame_was_published(slot, earlier);
        if now.frame == before.frame {
            if before.frame != slot.frame {
                let i = choose|i: int|
                    0 <= i < earlier.len() && earlier[i] == Call::Publish(before.frame);
                assert(calls[i] == earlier[i]);
            }
        } else {
            assert(calls[calls.len() - 1] == Call::Publish(now.frame));
        }
    }
}

/// No tearing, for a channel in use: once a `publish` has happened on a channel
/// that started empty, every later `take` returns, as a whole, the frame of one
/// of the earlier `publish` calls.
pub proof fn lemma_take_returns_a_published_frame(calls: Seq<Call>, k: int)
    requires
        0 <= k < calls.len(),
        calls[k] == Call::Take,
        exists|j: int| 0 <= j < k && calls[j] is Publish,
    ensures
        exists|i: int|
            0 <= i < k && calls[i] == Call::Publish(
                after_calls(empty_slot(), calls.take(k)).frame,
            ),
{
    let earlier = calls.take(k);
    let j = choose|j: int| 0 <= j < k && calls[j] is Publish;
    assert(earlier[j] is Publish);
    lemma_first_publish_is_stored(earlier);
    let taken = after_calls(empty_slot(), earlier).frame;
    let i = choose|i: int| 0 <= i < earlier.len() && earlier[i] == Call::Publish(taken);
    assert(calls[i] == earlier[i]);
}

/// On a channel that started empty, a history that holds a `publish` leaves a
/// published frame in the slot, never the blank frame the channel started with
/// (unless that very frame was published).
proof fn lemma_first_publish_is_stored(calls: Seq<Call>)
    requires
        exists|j: int| 0 <= j < calls.len() && calls[j] is Publish,
    ensures
        exists|i: int|
            0 <= i < calls.len() && calls[i] == Call::Publish(
                after_calls(empty_slot(), calls).frame,
            ),
    decreases calls.len(),
{
    let earlier = calls.drop_last();
    let before = after_calls(empty_slot(), earlier);
    let now = after_calls(empty_slot(), calls);
    let last = calls.len() - 1;
    if exists|j: int| 0 <= j < earlier.len() && earlier[j] is Publish {
        lemma_first_publish_is_stored(earlier);
        let i = choose|i: int| 0 <= i < earlier.len() && earlier[i] == Call::Publish(before.frame);
        assert(calls[i] == earlier[i]);
        if now.frame != before.frame {
            assert(calls[last] == Call::Publish(now.frame));
        }
    } else {
        let j = choose|j: int| 0 <= j < calls.len() && calls[j] is Publish;
        if j < last {
            assert(earlier[j] == calls[j]);
        }
        lemma_never_fresh_without_publish(empty_slot(), earlier);
        assert(calls[last] == Call::Publish(now.frame));
    }
}

/// A slot that is not fresh stays so through a history without a `publish`.
proof fn lemma_never_fresh_without_publish(slot: Slot, calls: Seq<Call>)
    requires
        !slot.fresh,
        forall|j: int| 0 <= j < calls.len() ==> !(calls[j] is Publish),
    ensures
        !after_calls(slot, calls).fresh,
    decreases calls.len(),
{
    if calls.len() > 0 {
        let earlier = calls.drop_last();
        assert forall|j: int| 0 <= j < earlier.len() implies !(earlier[j] is Publish) by {
            assert(earlier[j] == calls[j]);
        }
        lemma_never_fresh_without_publish(slot, earlier);
    }
}

/// Drop when behind: on a slot that is not fresh, publishing `first` and then
/// any number of further frames with no `take` between leaves `first` in the
/// slot, fresh; the frames that came after it were dropped.
pub proof fn lemma_drop_when_behind(slot: Slot, first: Seq<Pixel>, later: Seq<Seq<Pixel>>)
    requires
        !slot.fresh,
    ensures
        after_calls(slot, publishes(seq![first] + later)) == (Slot { frame: first, fresh: true }),
    decreases later.len(),
{
    let calls = publishes(seq![first] + later);
    if later.len() == 0 {
        assert(calls.drop_last() =~= Seq::<Call>::empty());
        assert(after_calls(slot, calls.drop_last()) == slot);
        assert(calls.last() == Call::Publish(first));
    } else {
        lemma_drop_when_behind(slot, first, later.drop_last());
        assert(calls.drop_last() =~= publishes(seq![first] + later.drop_last()));
    }
}

/// A repeated `take` with no `publish` between returns the same frame again.
pub proof fn lemma_take_again_returns_same_frame(slot: Slot)
    ensures
        after_take(slot).frame == slot.frame,
        after_take(after_take(slot)) == after_take(slot),
{
}

} // verus!
