//! Descriptors of activation layers.

use vstd::prelude::*;

use crate::mlc::ActivationType;

verus! {

/// An activation layer's configuration: the nonlinearity and its three
/// coefficients.  The runtime's coefficients are real-valued; the model
/// keeps the whole-number values the default constructors use.
#[derive(Clone, Copy, PartialEq, Eq, Structural, Debug)]
pub struct ActivationDescriptor {
    pub activation_type: ActivationType,
    pub a: i64,
    pub b: i64,
    pub c: i64,
}

impl ActivationDescriptor {
    /// The configured nonlinearity.
    pub fn activation_type(&self) -> (t: ActivationType)
        ensures
            t == self.activation_type,
    {
        self.activation_type
    }

    /// The first coefficient; zero unless a constructor set it.
    pub fn a(&self) -> (r: i64)
        ensures
            r == self.a,
    {
        self.a
    }

    /// The second coefficient; one unless a constructor set it.
    pub fn b(&self) -> (r: i64)
        ensures
            r == self.b,
    {
        self.b
    }

    /// The third coefficient; one unless a constructor set it.
    pub fn c(&self) -> (r: i64)
        ensures
            r == self.c,
    {
        self.c
    }

    /// A descriptor with the given nonlinearity and the default
    /// coefficients a = 0, b = 1, c = 1, handed back autoreleased by the
    /// foreign call; the same value as
    /// [`ActivationDescriptor::with_type`].
    pub fn with_type_ar(activation_type: ActivationType) -> (r: Option<ActivationDescriptor>)
        ensures
            r == Some(
                ActivationDescriptor { activation_type, a: 0, b: 1, c: 1 },
            ),
    {
        Some(ActivationDescriptor { activation_type, a: 0, b: 1, c: 1 })
    }

    /// A descriptor with the given nonlinearity and the default
    /// coefficients a = 0, b = 1, c = 1.
    pub fn with_type(activation_type: ActivationType) -> (r: Option<ActivationDescriptor>)
        ensures
            r == Some(
                ActivationDescriptor { activation_type, a: 0, b: 1, c: 1 },
            ),
    {
        ActivationDescriptor::with_type_ar(activation_type)
    }
}

} // verus!
