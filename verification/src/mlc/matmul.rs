//! Descriptors and layers for matrix multiplication.

use vstd::prelude::*;

verus! {

/// A matrix multiplication's configuration: whether each operand is
/// transposed.  The runtime also scales by a real-valued factor, which
/// stays at its default of one in this model.
#[derive(Clone, Copy, PartialEq, Eq, Structural, Debug)]
pub struct Desc {
    pub transposes_x: bool,
    pub transposes_y: bool,
}

impl Desc {
    /// Whether the first operand is transposed.
    pub fn transposes_x(&self) -> (r: bool)
        ensures
            r == self.transposes_x,
    {
        self.transposes_x
    }

    /// Whether the second operand is transposed.
    pub fn transposes_y(&self) -> (r: bool)
        ensures
            r == self.transposes_y,
    {
        self.transposes_y
    }

    /// The default configuration: no operand transposed.
    pub fn desc() -> (d: Desc)
        ensures
            !d.transposes_x,
            !d.transposes_y,
    {
        Desc { transposes_x: false, transposes_y: false }
    }

    /// A configuration with the given transposition flags.
    pub fn with_transposes(transposes_x: bool, transposes_y: bool) -> (d: Option<Desc>)
        ensures
            d == Some(Desc { transposes_x, transposes_y }),
    {
        Some(Desc { transposes_x, transposes_y })
    }

    /// The default configuration.
    pub fn new() -> (d: Desc)
        ensures
            !d.transposes_x,
            !d.transposes_y,
    {
        Desc::desc()
    }
}

/// A matrix multiplication layer.
#[derive(Clone, Copy, PartialEq, Eq, Structural, Debug)]
pub struct Layer {
    desc: Desc,
}

impl Layer {
    /// The configuration the layer was built with.
    pub closed spec fn desc_spec(self) -> Desc {
        self.desc
    }

    /// A layer with the given configuration.
    pub fn with_desc(desc: &Desc) -> (r: Option<Layer>)
        ensures
            r matches Some(l) && l.desc_spec() == *desc,
    {
        Some(Layer { desc: *desc })
    }

    /// The layer's configuration.
    pub fn desc(&self) -> (d: &Desc)
        ensures
            *d == self.desc_spec(),
    {
        &self.desc
    }

    /// A layer with the default configuration.
    pub fn new() -> (l: Layer)
        ensures
            !l.desc_spec().transposes_x,
            !l.desc_spec().transposes_y,
    {
        Layer { desc: Desc::desc() }
    }
}

} // verus!
