//! The effect: three parameters, a sample rate, and the delay line that they
//! size.

use vstd::prelude::*;
use crate::arith::{Arithmetic, mix_samples};
use crate::delay_line::{DelayLine, filled};
use crate::frame::{Frame, silence};
use crate::info::{
    Category, PluginInfo, CHANNEL_COUNT, PARAMETER_COUNT, UNIQUE_ID, effect_name, vendor_name,
};
use crate::params::{
    DEFAULT_LENGTH, DEFAULT_SAMPLE_RATE, FEEDBACK_FACTOR, MILLISECONDS, MIN_DELAY_TIME,
    MIN_FEEDBACK, PERCENT, display_scale, parameter_label, parameter_name,
};
use crate::schedule::{Step, block_length, block_of, block_run, frame_step, paired, step_at};
use crate::sizing::{frames_for, line_length};
use crate::word::{ONE, ZERO, at_least, raise_to};

verus! {

/// The stereo delay.
pub struct SillyDelay {
    delay_time: u32,
    dry_wet: u32,
    sample_rate: u32,
    delay_buffer: DelayLine,
    feedback_amt: u32,
}

/// What an effect holds.
pub struct SillyDelayView {
    /// Parameter 0: the delay time, where 1 stands for two seconds.
    pub delay_time: u32,
    /// Parameter 1: the feedback amount.
    pub feedback: u32,
    /// Parameter 2: the share of the delayed signal in the output.
    pub dry_wet: u32,
    /// The sample rate that the host last gave.
    pub sample_rate: u32,
    /// The frames in the delay line, oldest first.
    pub line: Seq<Frame>,
}

impl View for SillyDelay {
    type V = SillyDelayView;

    closed spec fn view(&self) -> SillyDelayView {
        SillyDelayView {
            delay_time: self.delay_time,
            feedback: self.feedback_amt,
            dry_wet: self.dry_wet,
            sample_rate: self.sample_rate,
            line: self.delay_buffer@,
        }
    }
}

/// `line` is a silent line of the length that the sizing rule gives for a
/// product of `sample_rate` and `delay_time`.
pub open spec fn sized_for<A, S, M>(
    ops: &Arithmetic<A, S, M>,
    sample_rate: u32,
    delay_time: u32,
    line: Seq<Frame>,
) -> bool where A: Fn(u32, u32) -> u32, S: Fn(u32, u32) -> u32, M: Fn(u32, u32) -> u32 {
    exists|product: u32| #[trigger]
        ops.multiplies(sample_rate, delay_time, product) && line == filled(
            line_length(product),
            silence(),
        )
}

/// A silent delay line for the given sample rate and delay time.
pub fn reload_delay_buffer<A, S, M>(
    sample_rate: u32,
    delay_time: u32,
    ops: &Arithmetic<A, S, M>,
) -> (line: DelayLine) where
    A: Fn(u32, u32) -> u32,
    S: Fn(u32, u32) -> u32,
    M: Fn(u32, u32) -> u32,

    requires
        ops.total(),
    ensures
        sized_for(ops, sample_rate, delay_time, line@),
{
    let product = ops.product(sample_rate, delay_time);
    let size = frames_for(product);
    DelayLine::with_fill(size, Frame::silent())
}

impl Default for SillyDelay {
    /// An effect at the default sample rate.
    fn default() -> (effect: SillyDelay)
        ensures
            effect@ == (SillyDelayView {
                delay_time: MIN_DELAY_TIME,
                feedback: MIN_FEEDBACK,
                dry_wet: ONE,
                sample_rate: DEFAULT_SAMPLE_RATE,
                line: filled(DEFAULT_LENGTH as nat, silence()),
            }),
    {
        SillyDelay {
            delay_buffer: DelayLine::with_fill(DEFAULT_LENGTH, Frame::silent()),
            delay_time: MIN_DELAY_TIME,
            dry_wet: ONE,
            sample_rate: DEFAULT_SAMPLE_RATE,
            feedback_amt: MIN_FEEDBACK,
        }
    }
}

impl SillyDelay {
    /// An effect at the given sample rate, with the shortest delay time, the
    /// least feedback and nothing but the delayed signal in its output.
    pub fn new<A, S, M>(sample_rate: u32, ops: &Arithmetic<A, S, M>) -> (effect: SillyDelay) where
        A: Fn(u32, u32) -> u32,
        S: Fn(u32, u32) -> u32,
        M: Fn(u32, u32) -> u32,

        requires
            ops.total(),
        ensures
            effect@.delay_time == MIN_DELAY_TIME,
            effect@.feedback == MIN_FEEDBACK,
            effect@.dry_wet == ONE,
            effect@.sample_rate == sample_rate,
            sized_for(ops, sample_rate, MIN_DELAY_TIME, effect@.line),
    {
        SillyDelay {
            delay_time: MIN_DELAY_TIME,
            dry_wet: ONE,
            sample_rate: sample_rate,
            delay_buffer: reload_delay_buffer(sample_rate, MIN_DELAY_TIME, ops),
            feedback_amt: MIN_FEEDBACK,
        }
    }

    /// The description of the effect.
    pub fn get_info(&self) -> (info: PluginInfo)
        ensures
            info.parameters == PARAMETER_COUNT,
            info.inputs == CHANNEL_COUNT,
            info.outputs == CHANNEL_COUNT,
            info.category == Category::Effect,
            !info.double_precision,
            info.name@ == effect_name(),
            info.vendor@ == vendor_name(),
            info.unique_id == UNIQUE_ID,
    {
        PluginInfo {
            parameters: PARAMETER_COUNT,
            inputs: CHANNEL_COUNT,
            outputs: CHANNEL_COUNT,
            category: Category::Effect,
            double_precision: false,
            name: "SillyDelay".to_owned(),
            vendor: "Volfym".to_owned(),
            unique_id: UNIQUE_ID,
        }
    }

    /// Sets a parameter. The delay time is raised to `MIN_DELAY_TIME` and the
    /// feedback amount to `MIN_FEEDBACK`; the mix is taken as it is. A new
    /// delay time replaces the line by a silent one of the new length. An
    /// index that names no parameter changes nothing.
    pub fn set_parameter<A, S, M>(&mut self, index: i32, value: u32, ops: &Arithmetic<A, S, M>) where
        A: Fn(u32, u32) -> u32,
        S: Fn(u32, u32) -> u32,
        M: Fn(u32, u32) -> u32,

        requires
            ops.total(),
        ensures
            index == 0 ==> {
                &&& final(self)@ == (SillyDelayView {
                    delay_time: at_least(value, MIN_DELAY_TIME),
                    line: final(self)@.line,
                    ..old(self)@
                })
                &&& sized_for(
                    ops,
                    old(self)@.sample_rate,
                    at_least(value, MIN_DELAY_TIME),
                    final(self)@.line,
                )
            },
            index == 1 ==> final(self)@ == (SillyDelayView {
                feedback: at_least(value, MIN_FEEDBACK),
                ..old(self)@
            }),
            index == 2 ==> final(self)@ == (SillyDelayView { dry_wet: value, ..old(self)@ }),
            !(0 <= index <= 2) ==> final(self)@ == old(self)@,
    {
        if index == 0 {
            self.delay_time = raise_to(value, MIN_DELAY_TIME);
            self.delay_buffer = reload_delay_buffer(self.sample_rate, self.delay_time, ops);
        } else if index == 1 {
            self.feedback_amt = raise_to(value, MIN_FEEDBACK);
        } else if index == 2 {
            self.dry_wet = value;
        }
    }

    /// The value of a parameter; zero where there is no such parameter.
    pub fn get_parameter(&self, index: i32) -> (value: u32)
        ensures
            index == 0 ==> value == self@.delay_time,
            index == 1 ==> value == self@.feedback,
            index == 2 ==> value == self@.dry_wet,
            !(0 <= index <= 2) ==> value == ZERO,
    {
        if index == 0 {
            self.delay_time
        } else if index == 1 {
            self.feedback_amt
        } else if index == 2 {
            self.dry_wet
        } else {
            ZERO
        }
    }

    /// The sample rate that the effect was last given.
    pub fn sample_rate(&self) -> (sample_rate: u32)
        ensures
            sample_rate == self@.sample_rate,
    {
        self.sample_rate
    }

    /// The number of frames in the delay line.
    pub fn delay_frames(&self) -> (frames: usize)
        ensures
            frames == self@.line.len(),
    {
        self.delay_buffer.capacity()
    }

    /// The name of a parameter; empty where there is no such parameter.
    pub fn get_parameter_name(&self, index: i32) -> (name: String)
        ensures
            name@ == parameter_name(index),
    {
        if index == 0 {
            "Delay Time".to_owned()
        } else if index == 1 {
            "Feedback".to_owned()
        } else if index == 2 {
            "Dry/Wet".to_owned()
        } else {
            String::new()
        }
    }

    /// The unit in which a parameter is shown; empty where there is no such
    /// parameter.
    pub fn get_parameter_label(&self, index: i32) -> (label: String)
        ensures
            label@ == parameter_label(index),
    {
        if index == 0 {
            "ms".to_owned()
        } else if index == 1 || index == 2 {
            "%".to_owned()
        } else {
            String::new()
        }
    }

    /// A parameter as it is shown: what `show` makes of the value times its
    /// display scale; empty where there is no such parameter.
    pub fn get_parameter_text<A, S, M, D>(
        &self,
        index: i32,
        ops: &Arithmetic<A, S, M>,
        show: &D,
    ) -> (text: String) where
        A: Fn(u32, u32) -> u32,
        S: Fn(u32, u32) -> u32,
        M: Fn(u32, u32) -> u32,
        D: Fn(u32) -> String,

        requires
            ops.total(),
            forall|word: u32| #[trigger] show.requires((word,)),
        ensures
            0 <= index <= 2 ==> exists|scaled: u32| #[trigger]
                ops.multiplies(self.parameter(index), display_scale(index), scaled)
                    && show.ensures((scaled,), text),
            !(0 <= index <= 2) ==> text@ == Seq::<char>::empty(),
    {
        if 0 <= index && index <= 2 {
            let scale = if index == 0 {
                MILLISECONDS
            } else {
                PERCENT
            };
            let scaled = ops.product(self.get_parameter(index), scale);
            let text = show(scaled);
            assert(ops.multiplies(self.parameter(index), display_scale(index), scaled));
            text
        } else {
            String::new()
        }
    }

    /// The value of a parameter; zero where there is no such parameter.
    pub open spec fn parameter(&self, index: i32) -> u32 {
        if index == 0 {
            self@.delay_time
        } else if index == 1 {
            self@.feedback
        } else if index == 2 {
            self@.dry_wet
        } else {
            ZERO
        }
    }

    /// Takes a new sample rate and replaces the line by a silent one of the
    /// length that it asks for.
    pub fn set_sample_rate<A, S, M>(&mut self, sample_rate: u32, ops: &Arithmetic<A, S, M>) where
        A: Fn(u32, u32) -> u32,
        S: Fn(u32, u32) -> u32,
        M: Fn(u32, u32) -> u32,

        requires
            ops.total(),
        ensures
            final(self)@ == (SillyDelayView {
                sample_rate: sample_rate,
                line: final(self)@.line,
                ..old(self)@
            }),
            sized_for(ops, sample_rate, old(self)@.delay_time, final(self)@.line),
    {
        self.sample_rate = sample_rate;
        self.delay_buffer = reload_delay_buffer(sample_rate, self.delay_time, ops);
    }

    /// Processes one frame: see `frame_step`. Returns the next feedback and
    /// the output frame.
    pub fn process_frame<A, S, M>(
        &mut self,
        feedback: Frame,
        input: Frame,
        dry: Frame,
        gain: u32,
        ops: &Arithmetic<A, S, M>,
    ) -> (next: (Frame, Frame)) where
        A: Fn(u32, u32) -> u32,
        S: Fn(u32, u32) -> u32,
        M: Fn(u32, u32) -> u32,

        requires
            ops.total(),
        ensures
            final(self)@ == (SillyDelayView { line: final(self)@.line, ..old(self)@ }),
            frame_step(
                ops,
                gain,
                old(self)@.dry_wet,
                Step { line: old(self)@.line, feedback: feedback },
                input,
                dry,
                Step { line: final(self)@.line, feedback: next.0 },
                next.1,
            ),
    {
        let entered = Frame {
            left: ops.sum(input.left, feedback.left),
            right: ops.sum(input.right, feedback.right),
        };
        let left = self.delay_buffer.push_pop(entered);
        let next_feedback = Frame {
            left: ops.product(left.left, gain),
            right: ops.product(left.right, gain),
        };
        let output = Frame {
            left: mix_samples(dry.left, left.left, self.dry_wet, ops),
            right: mix_samples(dry.right, left.right, self.dry_wet, ops),
        };
        (next_feedback, output)
    }

    /// Processes a block: the frames of the two input channels enter the
    /// line in order, and the frames of the two output channels are mixed
    /// with what leaves it. The gain is the feedback amount minus
    /// `FEEDBACK_FACTOR`. Where the channels differ in length, the frames
    /// that all four have are processed and the rest is left as it is.
    pub fn process<A, S, M>(
        &mut self,
        in_l: &[u32],
        in_r: &[u32],
        out_l: &mut Vec<u32>,
        out_r: &mut Vec<u32>,
        ops: &Arithmetic<A, S, M>,
    ) where A: Fn(u32, u32) -> u32, S: Fn(u32, u32) -> u32, M: Fn(u32, u32) -> u32
        requires
            ops.total(),
        ensures
            final(self)@ == (SillyDelayView { line: final(self)@.line, ..old(self)@ }),
            final(out_l)@.len() == old(out_l)@.len(),
            final(out_r)@.len() == old(out_r)@.len(),
            forall|i: int|
                block_length(in_l@.len(), in_r@.len(), old(out_l)@.len(), old(out_r)@.len()) <= i
                    < old(out_l)@.len() ==> final(out_l)@[i] == old(out_l)@[i],
            forall|i: int|
                block_length(in_l@.len(), in_r@.len(), old(out_l)@.len(), old(out_r)@.len()) <= i
                    < old(out_r)@.len() ==> final(out_r)@[i] == old(out_r)@[i],
            block_of(
                ops,
                old(self)@.feedback,
                old(self)@.dry_wet,
                old(self)@.line,
                final(self)@.line,
                paired(
                    in_l@,
                    in_r@,
                    block_length(in_l@.len(), in_r@.len(), old(out_l)@.len(), old(out_r)@.len()),
                ),
                paired(
                    old(out_l)@,
                    old(out_r)@,
                    block_length(in_l@.len(), in_r@.len(), old(out_l)@.len(), old(out_r)@.len()),
                ),
                paired(
                    final(out_l)@,
                    final(out_r)@,
                    block_length(in_l@.len(), in_r@.len(), old(out_l)@.len(), old(out_r)@.len()),
                ),
            ),
    {
        let inputs = if in_l.len() <= in_r.len() {
            in_l.len()
        } else {
            in_r.len()
        };
        let outputs = if out_l.len() <= out_r.len() {
            out_l.len()
        } else {
            out_r.len()
        };
        let n = if inputs <= outputs {
            inputs
        } else {
            outputs
        };
        let gain = ops.difference(self.feedback_amt, FEEDBACK_FACTOR);
        let mut feedback = Frame::silent();
        let ghost start = self@;
        let ghost dry_l = out_l@;
        let ghost dry_r = out_r@;
        let ghost mut trace: Seq<Step> = seq![Step { line: self@.line, feedback: silence() }];
        let mut i: usize = 0;
        while i < n
            invariant
                ops.total(),
                i <= n,
                n == block_length(in_l@.len(), in_r@.len(), dry_l.len(), dry_r.len()),
                out_l@.len() == dry_l.len(),
                out_r@.len() == dry_r.len(),
                self@ == (SillyDelayView { line: self@.line, ..start }),
                trace.len() == i + 1,
                trace[0] == (Step { line: start.line, feedback: silence() }),
                trace[i as int] == (Step { line: self@.line, feedback: feedback }),
                forall|j: int| i <= j < dry_l.len() ==> out_l@[j] == dry_l[j],
                forall|j: int| i <= j < dry_r.len() ==> out_r@[j] == dry_r[j],
                forall|j: int|
                    0 <= j < i ==> #[trigger] step_at(
                        ops,
                        gain,
                        start.dry_wet,
                        trace,
                        paired(in_l@, in_r@, n as nat),
                        paired(dry_l, dry_r, n as nat),
                        paired(out_l@, out_r@, n as nat),
                        j,
                    ),
            decreases n - i,
        {
            let ghost trace_before = trace;
            let ghost out_l_before = out_l@;
            let ghost out_r_before = out_r@;
            let input = Frame { left: in_l[i], right: in_r[i] };
            let dry = Frame { left: out_l[i], right: out_r[i] };
            let (next_feedback, output) = self.process_frame(feedback, input, dry, gain, ops);
            out_l.set(i, output.left);
            out_r.set(i, output.right);
            feedback = next_feedback;
            proof {
                trace = trace.push(Step { line: self@.line, feedback: feedback });
                assert forall|j: int| 0 <= j < i + 1 implies #[trigger] step_at(
                    ops,
                    gain,
                    start.dry_wet,
                    trace,
                    paired(in_l@, in_r@, n as nat),
                    paired(dry_l, dry_r, n as nat),
                    paired(out_l@, out_r@, n as nat),
                    j,
                ) by {
                    if j < i {
                        assert(step_at(
                            ops,
                            gain,
                            start.dry_wet,
                            trace_before,
                            paired(in_l@, in_r@, n as nat),
                            paired(dry_l, dry_r, n as nat),
                            paired(out_l_before, out_r_before, n as nat),
                            j,
                        ));
                    }
                }
            }
            i = i + 1;
        }
        proof {
            assert(block_run(
                ops,
                gain,
                start.dry_wet,
                trace,
                paired(in_l@, in_r@, n as nat),
                paired(dry_l, dry_r, n as nat),
                paired(out_l@, out_r@, n as nat),
            ));
            assert(ops.differs(start.feedback, FEEDBACK_FACTOR, gain));
            assert(trace.last() == trace[n as int]);
        }
    }
}

} // verus!
