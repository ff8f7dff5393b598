//! The circular buffer of the `queues` crate, as the delay line uses it.
//!
//! Nothing in this file is proved: each contract restates what the source of
//! `queues` shows of the function that the body calls.

use vstd::prelude::*;
use queues::CircularBuffer;
use queues::IsQueue;
use crate::frame::Frame;

verus! {

/// The largest capacity that the library asks of a buffer. A vector of
/// twice as many frames is still within the size that a vector may have, on
/// 32-bit machines too, so that a full buffer can take one frame more.
pub const MAX_CAPACITY: usize = 0x0400_0000;

#[verifier::external_type_specification]
#[verifier::external_body]
#[verifier::reject_recursive_types(T)]
pub struct ExCircularBuffer<T: Clone>(CircularBuffer<T>);

/// The frames that a buffer holds, oldest first.
pub uninterp spec fn ring_frames(ring: CircularBuffer<Frame>) -> Seq<Frame>;

/// The capacity that a buffer was made with.
pub uninterp spec fn ring_capacity(ring: CircularBuffer<Frame>) -> nat;

/// `CircularBuffer::with_default`: a buffer of the given capacity that holds
/// `capacity` copies of `fill`, made by `Clone`, which for a frame is a plain
/// copy. The capacity is bounded because the call allocates storage for that
/// many frames.
#[verifier::external_body]
pub(crate) fn ring_with_default(capacity: usize, fill: Frame) -> (ring: CircularBuffer<Frame>)
    requires
        capacity <= MAX_CAPACITY,
    ensures
        ring_capacity(ring) == capacity,
        ring_frames(ring) == Seq::new(capacity as nat, |i: int| fill),
{
    CircularBuffer::with_default(capacity, fill)
}

/// `IsQueue::add` on a `CircularBuffer`: the frame is appended; while the
/// buffer held fewer frames than its capacity nothing leaves, otherwise the
/// oldest of the frames, the new one included, leaves and is returned. The
/// call never reports an error, which is why the outer `Option` is always
/// `Some`. The length is bounded because the call appends before it removes;
/// within the bound neither step can panic, so the call does not unwind.
#[verifier::external_body]
pub(crate) fn ring_add(ring: &mut CircularBuffer<Frame>, frame: Frame) -> (left: Option<
    Option<Frame>,
>)
    requires
        ring_frames(*old(ring)).len() <= MAX_CAPACITY,
    ensures
        ring_capacity(*final(ring)) == ring_capacity(*old(ring)),
        ring_frames(*old(ring)).len() < ring_capacity(*old(ring)) ==> {
            &&& left == Some(None::<Frame>)
            &&& ring_frames(*final(ring)) == ring_frames(*old(ring)).push(frame)
        },
        ring_frames(*old(ring)).len() >= ring_capacity(*old(ring)) ==> {
            &&& left == Some(Some(ring_frames(*old(ring)).push(frame)[0]))
            &&& ring_frames(*final(ring)) == ring_frames(*old(ring)).push(frame).drop_first()
        },
    no_unwind
{
    ring.add(frame).ok()
}

/// `CircularBuffer::capacity`: the capacity that the buffer was made with.
#[verifier::external_body]
pub(crate) fn ring_limit(ring: &CircularBuffer<Frame>) -> (capacity: usize)
    ensures
        capacity == ring_capacity(*ring),
{
    ring.capacity()
}

} // verus!
