//! Shaders-performance primitives: typed n-dimensional arrays and the
//! shape operations of the compute graph.

pub mod graph;
pub mod nd_array;

use vstd::prelude::*;

verus! {

/// Element type of an n-dimensional array or tensor.
#[derive(Clone, Copy, PartialEq, Eq, Structural, Debug)]
pub enum DataType {
    Invalid,
    Float32,
    Float16,
    BFloat16,
    Int8,
    Int16,
    Int32,
    Int64,
    UInt8,
    UInt16,
    UInt32,
    UInt64,
    Bool,
}

/// Size in bytes of one element of the given type.
pub open spec fn data_type_size_spec(t: DataType) -> nat {
    match t {
        DataType::Invalid => 0,
        DataType::Float32 => 4,
        DataType::Float16 => 2,
        DataType::BFloat16 => 2,
        DataType::Int8 => 1,
        DataType::Int16 => 2,
        DataType::Int32 => 4,
        DataType::Int64 => 8,
        DataType::UInt8 => 1,
        DataType::UInt16 => 2,
        DataType::UInt32 => 4,
        DataType::UInt64 => 8,
        DataType::Bool => 1,
    }
}

/// Number of elements a shape holds: the product of its dimensions.
pub open spec fn element_count(dims: Seq<usize>) -> nat
    decreases dims.len(),
{
    if dims.len() == 0 {
        1
    } else {
        element_count(dims.drop_last()) * (dims.last() as nat)
    }
}

/// The extent of one dimension's slice.
#[derive(Clone, Copy, PartialEq, Eq, Structural, Debug)]
pub struct DimensionSlice {
    pub start: usize,
    pub length: usize,
}

} // verus!
