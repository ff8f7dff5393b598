//! Verified core of a stereo delay effect: a fixed-length line of paired
//! samples, the three parameters that govern it, and the per-frame feedback
//! and mixing schedule.
//!
//! Samples and parameter values are IEEE-754 single-precision numbers carried
//! as their 32-bit encodings, here called words. The library moves and
//! compares words; sums, differences and products of the numbers they encode
//! are supplied by the caller as functions on words.

pub mod frame;
pub mod ring;
pub mod delay_line;
pub mod word;
pub mod arith;
pub mod sizing;
pub mod info;
pub mod params;
pub mod schedule;
pub mod engine;
