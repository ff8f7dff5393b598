//! The delay line: a queue of frames whose length never changes.
//!
//! A line is made full. From then on every frame that enters pushes the
//! oldest frame out, so a frame leaves exactly as many steps after it entered
//! as the line is long.

use vstd::prelude::*;
use queues::CircularBuffer;
use crate::frame::Frame;
use crate::ring::{MAX_CAPACITY, ring_add, ring_capacity, ring_frames, ring_limit, ring_with_default};

verus! {

/// Why a delay line could not be made.
#[derive(Clone, Copy, Debug, PartialEq, Eq, Structural)]
pub enum CapacityError {
    /// A line of no frames was asked for.
    Zero,
    /// More than `MAX_CAPACITY` frames were asked for.
    TooLarge,
}

/// A line of `capacity` copies of `fill`.
pub open spec fn filled(capacity: nat, fill: Frame) -> Seq<Frame> {
    Seq::new(capacity, |i: int| fill)
}

/// The line after `frame` entered it: the oldest frame is gone, the new one
/// is the youngest.
pub open spec fn shifted(line: Seq<Frame>, frame: Frame) -> Seq<Frame> {
    line.drop_first().push(frame)
}

/// The line after the frames of `pushes` entered it, one after the other.
pub open spec fn after_pushes(line: Seq<Frame>, pushes: Seq<Frame>) -> Seq<Frame>
    decreases pushes.len(),
{
    if pushes.len() == 0 {
        line
    } else {
        shifted(after_pushes(line, pushes.drop_last()), pushes.last())
    }
}

/// The frame that leaves when `pushes[k]` enters, after the `k` frames
/// before it have entered.
pub open spec fn popped_at(line: Seq<Frame>, pushes: Seq<Frame>, k: int) -> Frame {
    after_pushes(line, pushes.take(k))[0]
}

/// A queue of frames, oldest first, that is always full.
pub struct DelayLine {
    ring: CircularBuffer<Frame>,
}

impl View for DelayLine {
    type V = Seq<Frame>;

    closed spec fn view(&self) -> Seq<Frame> {
        ring_frames(self.ring)
    }
}

impl DelayLine {
    #[verifier::type_invariant]
    spec fn full(self) -> bool {
        &&& 1 <= ring_capacity(self.ring) <= MAX_CAPACITY
        &&& ring_frames(self.ring).len() == ring_capacity(self.ring)
    }

    /// A line of `capacity` frames, each equal to `fill`, or the reason why
    /// there is no such line.
    pub fn new(capacity: usize, fill: Frame) -> (made: Result<DelayLine, CapacityError>)
        ensures
            capacity == 0 <==> made == Err::<DelayLine, CapacityError>(CapacityError::Zero),
            capacity > MAX_CAPACITY <==> made == Err::<DelayLine, CapacityError>(
                CapacityError::TooLarge,
            ),
            1 <= capacity <= MAX_CAPACITY <==> made.is_ok(),
            made.is_ok() ==> made.unwrap()@ == filled(capacity as nat, fill),
    {
        if capacity == 0 {
            Err(CapacityError::Zero)
        } else if capacity > MAX_CAPACITY {
            Err(CapacityError::TooLarge)
        } else {
            Ok(DelayLine::with_fill(capacity, fill))
        }
    }

    /// A line of `capacity` frames, each equal to `fill`.
    pub fn with_fill(capacity: usize, fill: Frame) -> (line: DelayLine)
        requires
            1 <= capacity <= MAX_CAPACITY,
        ensures
            line@ == filled(capacity as nat, fill),
    {
        DelayLine { ring: ring_with_default(capacity, fill) }
    }

    /// Lets `frame` enter and returns the frame that leaves: the oldest.
    pub fn push_pop(&mut self, frame: Frame) -> (oldest: Frame)
        ensures
            old(self)@.len() >= 1,
            oldest == old(self)@[0],
            final(self)@ == shifted(old(self)@, frame),
            final(self)@.len() == old(self)@.len(),
    {
        proof {
            use_type_invariant(&*self);
        }
        let ghost before = ring_frames(self.ring);
        let left = ring_add(&mut self.ring, frame);
        proof {
            assert(before.push(frame).drop_first() =~= before.drop_first().push(frame));
        }
        match left {
            Some(Some(oldest)) => oldest,
            _ => frame,
        }
    }

    /// The number of frames in the line.
    pub fn capacity(&self) -> (capacity: usize)
        ensures
            capacity == self@.len(),
            1 <= capacity <= MAX_CAPACITY,
    {
        proof {
            use_type_invariant(self);
        }
        ring_limit(&self.ring)
    }
}

/// The line after some pushes is the tail of everything that was ever in it:
/// the frames it started with, followed by the pushes.
pub proof fn lemma_after_pushes_is_tail(line: Seq<Frame>, pushes: Seq<Frame>)
    requires
        line.len() >= 1,
    ensures
        after_pushes(line, pushes) == (line + pushes).subrange(
            pushes.len() as int,
            (pushes.len() + line.len()) as int,
        ),
    decreases pushes.len(),
{
    let all = line + pushes;
    let n = pushes.len() as int;
    if pushes.len() == 0 {
        assert(after_pushes(line, pushes) =~= all.subrange(n, n + line.len()));
    } else {
        let earlier = pushes.drop_last();
        lemma_after_pushes_is_tail(line, earlier);
        let before = (line + earlier).subrange(n - 1, n - 1 + line.len());
        assert(after_pushes(line, pushes) == shifted(before, pushes.last()));
        assert(shifted(before, pushes.last()) =~= all.subrange(n, n + line.len()));
    }
}

/// Occupancy: however many frames have entered, the line is as long as it
/// was made.
pub proof fn law_occupancy(line: Seq<Frame>, pushes: Seq<Frame>)
    requires
        line.len() >= 1,
    ensures
        after_pushes(line, pushes).len() == line.len(),
{
    lemma_after_pushes_is_tail(line, pushes);
}

/// First in, first out: once as many frames have entered as the line is
/// long, the frame that leaves at step `k` is the one that entered at step
/// `k` minus the length of the line.
pub proof fn law_fifo(line: Seq<Frame>, pushes: Seq<Frame>, k: int)
    requires
        line.len() >= 1,
        line.len() <= k < pushes.len(),
    ensures
        popped_at(line, pushes, k) == pushes[k - line.len()],
{
    lemma_after_pushes_is_tail(line, pushes.take(k));
}

/// Until as many frames have entered as the line is long, the frame that
/// leaves at step `k` is the one that stood at place `k` of the line at the
/// start, whatever has entered meanwhile.
pub proof fn law_initial_frames_leave_first(line: Seq<Frame>, pushes: Seq<Frame>, k: int)
    requires
        0 <= k < line.len(),
        k < pushes.len(),
    ensures
        popped_at(line, pushes, k) == line[k],
{
    lemma_after_pushes_is_tail(line, pushes.take(k));
}

/// The first frames that leave a line made of copies of `fill` are equal to
/// `fill`, as many of them as the line is long, whatever enters meanwhile.
pub proof fn law_prefill(capacity: nat, fill: Frame, pushes: Seq<Frame>, k: int)
    requires
        0 <= k < capacity,
        k < pushes.len(),
    ensures
        popped_at(filled(capacity, fill), pushes, k) == fill,
{
    law_initial_frames_leave_first(filled(capacity, fill), pushes, k);
}

} // verus!
