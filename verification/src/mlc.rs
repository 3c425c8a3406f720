//! Machine-learning compute layers, as value models.

pub mod activation_descriptor;
pub mod matmul;

use vstd::prelude::*;

verus! {

/// The nonlinearity a compute layer applies.
#[derive(Clone, Copy, PartialEq, Eq, Structural, Debug)]
pub enum ActivationType {
    ReLU,
    Linear,
    Sigmoid,
    HardSigmoid,
    Tanh,
    Absolute,
    SoftPlus,
    SoftSign,
    ELU,
    ReLUN,
    LogSigmoid,
    SELU,
    CELU,
    HardShrink,
    SoftShrink,
    TanhShrink,
    Threshold,
    GELU,
    HardSwish,
    Clamp,
}

} // verus!
