//! Render-state bindings, as value models.

pub mod depth_stencil;
pub mod render_pipeline;

use vstd::prelude::*;

verus! {

/// The memory layout of one pixel.
#[derive(Clone, Copy, PartialEq, Eq, Structural, Debug)]
pub enum PixelFormat {
    Invalid,
    A8UNorm,
    R8UNorm,
    R8SNorm,
    R16UNorm,
    Rg8UNorm,
    Rgba8UNorm,
    Rgba8SNorm,
    Bgra8UNorm,
    Bgra8UNormSrgb,
    Rgba16UNorm,
    Depth32Float,
    Stencil8,
}

/// A compiled shader function, identified by its registry entry.
#[derive(Clone, Copy, PartialEq, Eq, Structural, Debug)]
pub struct Function {
    pub id: u64,
}

impl Function {
    /// The shader function with the given registry entry.
    pub fn with_id(id: u64) -> (f: Function)
        ensures
            f.id == id,
    {
        Function { id }
    }
}

/// A graphics device, identified by its registry entry.
#[derive(Clone, Copy, PartialEq, Eq, Structural, Debug)]
pub struct Device {
    pub registry_id: u64,
}

impl Device {
    /// The device with the given registry entry.
    pub fn with_registry_id(registry_id: u64) -> (d: Device)
        ensures
            d.registry_id == registry_id,
    {
        Device { registry_id }
    }
}

} // verus!
