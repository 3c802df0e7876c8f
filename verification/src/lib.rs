//! Instanced rendering of grass chunks, modelled as a staged pipeline over plain values.

use vstd::prelude::*;
use crate::gpu::Vec4;

pub mod scalar;
pub mod grass;
pub mod gpu;
pub mod cache;
pub mod layout;
pub mod descriptor;
pub mod grass_pipeline;
pub mod extract;
pub mod prepare;
pub mod mesh;
pub mod key;
pub mod queue;
pub mod render;
pub mod plugin;
pub mod frame;

verus! {

/// The colours of a region of grass, shared by all of its chunks. Each is red, green, blue
/// and alpha.
#[derive(Clone, Copy, Debug, PartialEq, Eq, Structural)]
pub struct RegionConfig {
    pub main_color: Vec4,
    pub bottom_color: Vec4,
}

/// The bit pattern of the single-precision value nearest to 0.2.
pub const P20: u32 = 0x3e4c_cccdu32;

/// The colour that a region has until it is given another: a dark green.
pub open spec fn default_color() -> Vec4 {
    Vec4 { x: P20, y: plugin::P50, z: 0, w: plugin::P100 }
}

impl Default for RegionConfig {
    fn default() -> (config: RegionConfig)
        ensures
            config.main_color == default_color(),
            config.bottom_color == default_color(),
    {
        let color = Vec4 { x: P20, y: plugin::P50, z: 0, w: plugin::P100 };
        RegionConfig { main_color: color, bottom_color: color }
    }
}

} // verus!
