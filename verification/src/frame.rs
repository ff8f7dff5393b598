//! Frames: one sample word for each of the two channels.

use vstd::prelude::*;
use crate::word::ZERO;

verus! {

/// The left and the right sample word of one instant.
#[derive(Clone, Copy, Debug, PartialEq, Eq, Structural)]
pub struct Frame {
    pub left: u32,
    pub right: u32,
}

/// The frame in which both channels are zero.
pub open spec fn silence() -> Frame {
    Frame { left: ZERO, right: ZERO }
}

impl Frame {
    /// The frame in which both channels are zero.
    pub fn silent() -> (frame: Frame)
        ensures
            frame == silence(),
    {
        Frame { left: ZERO, right: ZERO }
    }
}

} // verus!
