//! The three parameters: their bounds, their names and how they are shown.

use vstd::prelude::*;

verus! {

/// The word of 0.001: the shortest delay time, and the one an effect starts
/// with.
pub const MIN_DELAY_TIME: u32 = 0x3a83_126f;

/// The word of 0.1: the least feedback amount, and the one an effect starts
/// with.
pub const MIN_FEEDBACK: u32 = 0x3dcc_cccd;

/// The word of 0.1: what is taken off the feedback amount to get the gain
/// with which a frame that left the line enters it again.
pub const FEEDBACK_FACTOR: u32 = 0x3dcc_cccd;

/// The word of 44100: the sample rate of an effect that was given none.
pub const DEFAULT_SAMPLE_RATE: u32 = 0x472c_4400;

/// The word of the product of the default sample rate and the shortest delay
/// time, in single precision: a little over 44.1.
pub const DEFAULT_PRODUCT: u32 = 0x4230_6667;

/// The length of the line at the default sample rate and delay time.
pub const DEFAULT_LENGTH: usize = 88;

/// The word of 2000: a delay time times this is its length in milliseconds.
pub const MILLISECONDS: u32 = 0x44fa_0000;

/// The word of 100: a feedback amount or a mix times this is a percentage.
pub const PERCENT: u32 = 0x42c8_0000;

/// The name of a parameter; empty where there is no such parameter.
pub open spec fn parameter_name(index: i32) -> Seq<char> {
    if index == 0 {
        "Delay Time"@
    } else if index == 1 {
        "Feedback"@
    } else if index == 2 {
        "Dry/Wet"@
    } else {
        Seq::empty()
    }
}

/// The unit in which a parameter is shown; empty where there is no such
/// parameter.
pub open spec fn parameter_label(index: i32) -> Seq<char> {
    if index == 0 {
        "ms"@
    } else if index == 1 || index == 2 {
        "%"@
    } else {
        Seq::empty()
    }
}

/// The factor by which a parameter's value is multiplied to be shown.
pub open spec fn display_scale(index: i32) -> u32 {
    if index == 0 {
        MILLISECONDS
    } else {
        PERCENT
    }
}

} // verus!
