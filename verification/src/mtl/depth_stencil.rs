//! Depth and stencil test configuration.

use vstd::prelude::*;

verus! {

/// The comparison made between a new value and the existing one.
#[derive(Clone, Copy, PartialEq, Eq, Structural, Debug)]
pub enum CompareFn {
    /// A new value never passes the comparison test.
    Never,
    /// A new value passes if it is less than the existing value.
    Less,
    /// A new value passes if it is equal to the existing value.
    Equal,
    /// A new value passes if it is less than or equal to the existing value.
    LessEqual,
    /// A new value passes if it is greater than the existing value.
    Greater,
    /// A new value passes if it is not equal to the existing value.
    NotEqual,
    /// A new value passes if it is greater than or equal to the existing value.
    GreaterEqual,
    /// A new value always passes the comparison test.
    Always,
}

/// How a stencil value is updated after a test.
#[derive(Clone, Copy, PartialEq, Eq, Structural, Debug)]
pub enum StencilOp {
    /// Keep the current stencil value.
    Keep,
    /// Set the stencil value to zero.
    Zero,
    /// Replace the stencil value with the reference value.
    Replace,
    /// Increase the value by one, stopping at the maximum.
    IncrementClamp,
    /// Decrease the value by one, stopping at zero.
    DecrementClamp,
    /// Invert the value bitwise.
    Invert,
    /// Increase the value by one, wrapping to zero past the maximum.
    IncrementWrap,
    /// Decrease the value by one, wrapping to the maximum below zero.
    DecrementWrap,
}

/// Stencil test configuration for one face.
#[derive(Clone, Copy, PartialEq, Eq, Structural, Debug)]
pub struct StencilDescriptor {
    pub compare: CompareFn,
    pub failure: StencilOp,
    pub depth_failure: StencilOp,
    pub depth_stencil_pass: StencilOp,
    pub read_mask_bits: u32,
    pub write_mask_bits: u32,
}

impl StencilDescriptor {
    /// A fresh descriptor with the defaults: the comparison always
    /// passes, every operation keeps the current value, and both masks
    /// are fully open.
    /// The default single-face stencil configuration.
    pub open spec fn default_spec() -> StencilDescriptor {
        StencilDescriptor {
            compare: CompareFn::Always,
            failure: StencilOp::Keep,
            depth_failure: StencilOp::Keep,
            depth_stencil_pass: StencilOp::Keep,
            read_mask_bits: 0xffffffffu32,
            write_mask_bits: 0xffffffffu32,
        }
    }

    pub fn new() -> (d: StencilDescriptor)
        ensures
            d == StencilDescriptor::default_spec(),
            d.compare == CompareFn::Always,
            d.failure == StencilOp::Keep,
            d.depth_failure == StencilOp::Keep,
            d.depth_stencil_pass == StencilOp::Keep,
            d.read_mask_bits == 0xffffffffu32,
            d.write_mask_bits == 0xffffffffu32,
    {
        StencilDescriptor {
            compare: CompareFn::Always,
            failure: StencilOp::Keep,
            depth_failure: StencilOp::Keep,
            depth_stencil_pass: StencilOp::Keep,
            read_mask_bits: 0xffffffff,
            write_mask_bits: 0xffffffff,
        }
    }

    /// The comparison between the masked reference value and a masked stencil value.
    pub fn compare_fn(&self) -> (r: CompareFn)
        ensures
            r == self.compare,
    {
        self.compare
    }

    /// Sets the stencil comparison.
    pub fn set_compare_fn(&mut self, value: CompareFn)
        ensures
            (*final(self) == StencilDescriptor { compare: value, ..*old(self) }),
    {
        self.compare = value;
    }
    /// The operation run when the stencil test fails.
    pub fn failure_op(&self) -> (r: StencilOp)
        ensures
            r == self.failure,
    {
        self.failure
    }

    /// Sets the stencil-failure operation.
    pub fn set_failure_op(&mut self, value: StencilOp)
        ensures
            (*final(self) == StencilDescriptor { failure: value, ..*old(self) }),
    {
        self.failure = value;
    }
    /// The operation run when the stencil test passes but the depth test fails.
    pub fn depth_failure_op(&self) -> (r: StencilOp)
        ensures
            r == self.depth_failure,
    {
        self.depth_failure
    }

    /// Sets the depth-failure operation.
    pub fn set_depth_failure_op(&mut self, value: StencilOp)
        ensures
            (*final(self) == StencilDescriptor { depth_failure: value, ..*old(self) }),
    {
        self.depth_failure = value;
    }
    /// The operation run when both the stencil and the depth test pass.
    pub fn depth_stencil_op(&self) -> (r: StencilOp)
        ensures
            r == self.depth_stencil_pass,
    {
        self.depth_stencil_pass
    }

    /// Sets the both-pass operation.
    pub fn set_depth_stencil_op(&mut self, value: StencilOp)
        ensures
            (*final(self) == StencilDescriptor { depth_stencil_pass: value, ..*old(self) }),
    {
        self.depth_stencil_pass = value;
    }
    /// The bits stencil comparison tests can read.
    pub fn read_mask(&self) -> (r: u32)
        ensures
            r == self.read_mask_bits,
    {
        self.read_mask_bits
    }

    /// Sets the read mask.
    pub fn set_read_mask(&mut self, value: u32)
        ensures
            (*final(self) == StencilDescriptor { read_mask_bits: value, ..*old(self) }),
    {
        self.read_mask_bits = value;
    }
    /// The bits stencil operations can write.
    pub fn write_mask(&self) -> (r: u32)
        ensures
            r == self.write_mask_bits,
    {
        self.write_mask_bits
    }

    /// Sets the write mask.
    pub fn set_write_mask(&mut self, value: u32)
        ensures
            (*final(self) == StencilDescriptor { write_mask_bits: value, ..*old(self) }),
    {
        self.write_mask_bits = value;
    }
}

/// Depth and stencil configuration for both faces.
#[derive(Clone, Copy, PartialEq, Eq, Structural, Debug)]
pub struct DepthStencilDescriptor {
    pub depth_compare: CompareFn,
    pub depth_write: bool,
    pub front: StencilDescriptor,
    pub back: StencilDescriptor,
}

impl DepthStencilDescriptor {
    /// A fresh descriptor with the defaults: the depth comparison always
    /// passes (which effectively skips the depth test), depth writes are
    /// off, and both faces carry default stencil descriptors.
    pub fn new() -> (d: DepthStencilDescriptor)
        ensures
            d.depth_compare == CompareFn::Always,
            !d.depth_write,
            d.front == StencilDescriptor::default_spec(),
            d.back == StencilDescriptor::default_spec(),
    {
        DepthStencilDescriptor {
            depth_compare: CompareFn::Always,
            depth_write: false,
            front: StencilDescriptor::new(),
            back: StencilDescriptor::new(),
        }
    }

    /// The depth comparison; defaults to always passing, which effectively skips the depth test.
    pub fn compare_fn(&self) -> (r: CompareFn)
        ensures
            r == self.depth_compare,
    {
        self.depth_compare
    }

    /// Sets the depth comparison.
    pub fn set_compare_fn(&mut self, value: CompareFn)
        ensures
            (*final(self) == DepthStencilDescriptor { depth_compare: value, ..*old(self) }),
    {
        self.depth_compare = value;
    }
    /// Whether depth writes are performed; defaults to false.
    pub fn is_depth_write_enabled(&self) -> (r: bool)
        ensures
            r == self.depth_write,
    {
        self.depth_write
    }

    /// Switches depth writes on or off.
    pub fn set_depth_write_enabled(&mut self, value: bool)
        ensures
            (*final(self) == DepthStencilDescriptor { depth_write: value, ..*old(self) }),
    {
        self.depth_write = value;
    }

    /// The front-face stencil configuration.
    pub fn front_face_stenil(&self) -> (r: &StencilDescriptor)
        ensures
            *r == self.front,
    {
        &self.front
    }

    /// Sets the front-face stencil configuration.
    pub fn set_front_face_stencil(&mut self, value: &StencilDescriptor)
        ensures
            (*final(self) == DepthStencilDescriptor { front: *value, ..*old(self) }),
    {
        self.front = *value;
    }

    /// Resets the front-face stencil configuration to the defaults.
    pub fn reset_front_face_stencil(&mut self)
        ensures
            (*final(self) == DepthStencilDescriptor {
                front: StencilDescriptor::default_spec(),
                ..*old(self)
            }),
    {
        self.front = StencilDescriptor::new();
    }

    /// The back-face stencil configuration.
    pub fn back_face_stencil(&self) -> (r: &StencilDescriptor)
        ensures
            *r == self.back,
    {
        &self.back
    }

    /// Sets the back-face stencil configuration.
    pub fn set_back_face_stencil(&mut self, value: &StencilDescriptor)
        ensures
            (*final(self) == DepthStencilDescriptor { back: *value, ..*old(self) }),
    {
        self.back = *value;
    }

    /// Resets the back-face stencil configuration to the defaults.
    pub fn reset_back_face_stencil(&mut self)
        ensures
            (*final(self) == DepthStencilDescriptor {
                back: StencilDescriptor::default_spec(),
                ..*old(self)
            }),
    {
        self.back = StencilDescriptor::new();
    }
}

} // verus!
