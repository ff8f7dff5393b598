//! What the effect tells a host about itself.

use vstd::prelude::*;

verus! {

/// The kind of plugin.
#[derive(Clone, Copy, Debug, PartialEq, Eq, Structural)]
pub enum Category {
    /// It transforms audio that it is given.
    Effect,
}

/// The description of the effect.
#[derive(Debug)]
pub struct PluginInfo {
    pub name: String,
    pub vendor: String,
    pub unique_id: i32,
    pub parameters: i32,
    pub inputs: i32,
    pub outputs: i32,
    pub category: Category,
    /// Whether samples are processed in double precision.
    pub double_precision: bool,
}

/// The number of parameters.
pub const PARAMETER_COUNT: i32 = 3;

/// The number of input channels, and of output channels.
pub const CHANNEL_COUNT: i32 = 2;

/// The number by which hosts tell this effect from others.
pub const UNIQUE_ID: i32 = 486893;

/// The name of the effect.
pub open spec fn effect_name() -> Seq<char> {
    "SillyDelay"@
}

/// The name of its vendor.
pub open spec fn vendor_name() -> Seq<char> {
    "Volfym"@
}

} // verus!
