//! What a block of frames does to the effect, frame by frame.
//!
//! Each frame enters the line with the feedback of the frame before it added,
//! and the frame that leaves the line is both scaled into the next feedback
//! and mixed into the output. The feedback starts at silence with every
//! block.

use vstd::prelude::*;
use crate::arith::Arithmetic;
use crate::delay_line::{
    after_pushes, law_fifo, law_initial_frames_leave_first, popped_at, shifted,
};
use crate::frame::{Frame, silence};
use crate::params::FEEDBACK_FACTOR;

verus! {

/// What is carried from one frame of a block to the next.
pub struct Step {
    /// The frames in the delay line, oldest first.
    pub line: Seq<Frame>,
    /// What is added to the next input frame before it enters the line.
    pub feedback: Frame,
}

/// One frame takes the effect from `before` to `after` and gives `output`:
/// the input plus the feedback enters the line, the oldest frame leaves it,
/// the frame that left times `gain` is the next feedback, and the output is
/// `dry`, which stood in its place, mixed with the frame that left.
pub open spec fn frame_step<A, S, M>(
    ops: &Arithmetic<A, S, M>,
    gain: u32,
    dry_wet: u32,
    before: Step,
    input: Frame,
    dry: Frame,
    after: Step,
    output: Frame,
) -> bool where A: Fn(u32, u32) -> u32, S: Fn(u32, u32) -> u32, M: Fn(u32, u32) -> u32 {
    let entered = after.line.last();
    let left = before.line[0];
    &&& before.line.len() >= 1
    &&& after.line == shifted(before.line, entered)
    &&& ops.sums(input.left, before.feedback.left, entered.left)
    &&& ops.sums(input.right, before.feedback.right, entered.right)
    &&& ops.multiplies(left.left, gain, after.feedback.left)
    &&& ops.multiplies(left.right, gain, after.feedback.right)
    &&& ops.mixes(dry.left, left.left, dry_wet, output.left)
    &&& ops.mixes(dry.right, left.right, dry_wet, output.right)
}

/// The first `n` frames of two channels.
pub open spec fn paired(left: Seq<u32>, right: Seq<u32>, n: nat) -> Seq<Frame> {
    Seq::new(n, |i: int| Frame { left: left[i], right: right[i] })
}

/// Frame `i` of a block takes the effect from `trace[i]` to `trace[i + 1]`.
pub open spec fn step_at<A, S, M>(
    ops: &Arithmetic<A, S, M>,
    gain: u32,
    dry_wet: u32,
    trace: Seq<Step>,
    inputs: Seq<Frame>,
    dry: Seq<Frame>,
    outputs: Seq<Frame>,
    i: int,
) -> bool where A: Fn(u32, u32) -> u32, S: Fn(u32, u32) -> u32, M: Fn(u32, u32) -> u32 {
    frame_step(ops, gain, dry_wet, trace[i], inputs[i], dry[i], trace[i + 1], outputs[i])
}

/// A block: `trace` holds what the effect carries before each frame and
/// after the last, starting from silent feedback, and every frame is a
/// `frame_step`.
pub open spec fn block_run<A, S, M>(
    ops: &Arithmetic<A, S, M>,
    gain: u32,
    dry_wet: u32,
    trace: Seq<Step>,
    inputs: Seq<Frame>,
    dry: Seq<Frame>,
    outputs: Seq<Frame>,
) -> bool where A: Fn(u32, u32) -> u32, S: Fn(u32, u32) -> u32, M: Fn(u32, u32) -> u32 {
    &&& trace.len() == inputs.len() + 1
    &&& dry.len() == inputs.len()
    &&& outputs.len() == inputs.len()
    &&& trace[0].feedback == silence()
    &&& forall|i: int|
        0 <= i < inputs.len() ==> #[trigger] step_at(
            ops,
            gain,
            dry_wet,
            trace,
            inputs,
            dry,
            outputs,
            i,
        )
}

/// A block at the given feedback amount and mix takes the line from `before`
/// to `after`: the gain is the feedback amount minus `FEEDBACK_FACTOR`, and
/// the frames run as `block_run` says.
pub open spec fn block_of<A, S, M>(
    ops: &Arithmetic<A, S, M>,
    feedback: u32,
    dry_wet: u32,
    before: Seq<Frame>,
    after: Seq<Frame>,
    inputs: Seq<Frame>,
    dry: Seq<Frame>,
    outputs: Seq<Frame>,
) -> bool where A: Fn(u32, u32) -> u32, S: Fn(u32, u32) -> u32, M: Fn(u32, u32) -> u32 {
    exists|gain: u32, trace: Seq<Step>|
        {
            &&& #[trigger] ops.differs(feedback, FEEDBACK_FACTOR, gain)
            &&& #[trigger] block_run(ops, gain, dry_wet, trace, inputs, dry, outputs)
            &&& trace[0].line == before
            &&& trace.last().line == after
        }
}

/// The number of frames in a block: as many as all four channels have.
pub open spec fn block_length(in_l: nat, in_r: nat, out_l: nat, out_r: nat) -> nat {
    let inputs = if in_l <= in_r {
        in_l
    } else {
        in_r
    };
    let outputs = if out_l <= out_r {
        out_l
    } else {
        out_r
    };
    if inputs <= outputs {
        inputs
    } else {
        outputs
    }
}

/// The frames that entered the line during a block, in order: inputs with
/// the feedback added.
pub open spec fn entered(trace: Seq<Step>) -> Seq<Frame> {
    Seq::new((trace.len() - 1) as nat, |i: int| trace[i + 1].line.last())
}

/// Before frame `i` of a block the line is what it was at the start of the
/// block, after the first `i` of the frames that entered.
pub proof fn lemma_block_lines<A, S, M>(
    ops: &Arithmetic<A, S, M>,
    gain: u32,
    dry_wet: u32,
    trace: Seq<Step>,
    inputs: Seq<Frame>,
    dry: Seq<Frame>,
    outputs: Seq<Frame>,
    i: int,
) where A: Fn(u32, u32) -> u32, S: Fn(u32, u32) -> u32, M: Fn(u32, u32) -> u32
    requires
        block_run(ops, gain, dry_wet, trace, inputs, dry, outputs),
        0 <= i <= inputs.len(),
    ensures
        trace[i].line == after_pushes(trace[0].line, entered(trace).take(i)),
    decreases i,
{
    let pushes = entered(trace).take(i);
    if i > 0 {
        lemma_block_lines(ops, gain, dry_wet, trace, inputs, dry, outputs, i - 1);
        assert(step_at(ops, gain, dry_wet, trace, inputs, dry, outputs, i - 1));
        assert(pushes.drop_last() =~= entered(trace).take(i - 1));
    }
}

/// A block is a delay by the length of the line. What is mixed into output
/// frame `i` is the frame at place `i` of the line as it was when the block
/// began, and from the length of the line on the frame that entered that
/// many frames earlier.
pub proof fn law_block_delays<A, S, M>(
    ops: &Arithmetic<A, S, M>,
    gain: u32,
    dry_wet: u32,
    trace: Seq<Step>,
    inputs: Seq<Frame>,
    dry: Seq<Frame>,
    outputs: Seq<Frame>,
    i: int,
) where A: Fn(u32, u32) -> u32, S: Fn(u32, u32) -> u32, M: Fn(u32, u32) -> u32
    requires
        block_run(ops, gain, dry_wet, trace, inputs, dry, outputs),
        0 <= i < inputs.len(),
    ensures
        ({
            let line = trace[0].line;
            let delayed = if i < line.len() {
                line[i]
            } else {
                entered(trace)[i - line.len()]
            };
            &&& trace[i].line[0] == delayed
            &&& ops.mixes(dry[i].left, delayed.left, dry_wet, outputs[i].left)
            &&& ops.mixes(dry[i].right, delayed.right, dry_wet, outputs[i].right)
        }),
{
    let line = trace[0].line;
    lemma_block_lines(ops, gain, dry_wet, trace, inputs, dry, outputs, i);
    assert(step_at(ops, gain, dry_wet, trace, inputs, dry, outputs, 0));
    assert(step_at(ops, gain, dry_wet, trace, inputs, dry, outputs, i));
    assert(trace[i].line[0] == popped_at(line, entered(trace), i));
    if i < line.len() {
        law_initial_frames_leave_first(line, entered(trace), i);
    } else {
        law_fifo(line, entered(trace), i);
    }
}

} // verus!
