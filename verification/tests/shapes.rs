//! Tensor shape operations and typed arrays.

use cidre::mps::graph::{Graph, Tensor};
use cidre::mps::nd_array::{NDArray, NDArrayDesc};
use cidre::mps::DataType;
use cidre::mtl::Device;

#[test]
fn concat_sums_the_dimension() {
    let g = Graph::new();
    let a = Tensor::new(DataType::Float32, vec![2, 3]);
    let b = Tensor::new(DataType::Float32, vec![2, 5]);
    let r = g.concat(&vec![a, b], 1, None);
    assert_eq!(r.dims, vec![2, 8]);
    assert_eq!(r.dtype, DataType::Float32);
}

#[test]
fn broadcast_fills_the_shape() {
    let g = Graph::new();
    let a = Tensor::new(DataType::Float16, vec![1, 3]);
    let r = g.broadcast(&a, &vec![4, 2, 3], None);
    assert_eq!(r.dims, vec![4, 2, 3]);
    assert_eq!(r.dtype, DataType::Float16);
}

#[test]
fn expand_dims_inserts_length_one() {
    let g = Graph::new();
    let a = Tensor::new(DataType::Int32, vec![4, 5]);
    let r = g.expand_dims(&a, 1, None);
    assert_eq!(r.dims, vec![4, 1, 5]);

    // A negative axis counts from the trailing end of the result.
    let r = g.expand_dims(&a, -1, None);
    assert_eq!(r.dims, vec![4, 5, 1]);

    let r = g.expand_dims_axes(&a, &vec![0, 3], None);
    assert_eq!(r.dims, vec![1, 4, 5, 1]);
}

#[test]
fn reshape_keeps_the_element_count() {
    let g = Graph::new();
    let a = Tensor::new(DataType::Int8, vec![2, 6]);
    let r = g.reshape(&a, &vec![3, 4], None);
    assert_eq!(r.dims, vec![3, 4]);
    assert_eq!(r.dtype, DataType::Int8);
}

#[test]
fn transpose_swaps_two_dimensions() {
    let g = Graph::new();
    let a = Tensor::new(DataType::Float32, vec![2, 3, 4]);
    let r = g.transpose_with_dimension(&a, 0, 2, None);
    assert_eq!(r.dims, vec![4, 3, 2]);
}

#[test]
fn cast_changes_only_the_type() {
    let g = Graph::new();
    let a = Tensor::new(DataType::Float32, vec![7]);
    let r = g.cast(&a, DataType::Int64, None);
    assert_eq!(r.dims, vec![7]);
    assert_eq!(r.dtype, DataType::Int64);
}

#[test]
fn slice_narrows_one_dimension() {
    let g = Graph::new();
    let a = Tensor::new(DataType::Float32, vec![10, 3]);
    let r = g.slice_tensor(&a, 0, 2, 5, None);
    assert_eq!(r.dims, vec![5, 3]);
}

#[test]
fn nd_array_reports_its_shape() {
    let desc = NDArrayDesc::with_dims(DataType::Float32, vec![2, 3]);
    let device = Device::with_registry_id(1);
    let data = vec![0u8; 24];
    let a = NDArray::with_data(device, desc, data);

    assert_eq!(a.ndim(), 2);
    assert_eq!(a.dim_len(0), 2);
    assert_eq!(a.dim_len(1), 3);
    assert_eq!(a.data_type(), DataType::Float32);
    assert_eq!(a.data_type_size(), 4);
    assert_eq!(a.device().registry_id, 1);
    assert_eq!(a.descriptor().dim_len(1), 3);

    let mut out = Vec::new();
    a.read_bytes(&mut out);
    assert_eq!(out.len(), 24);
}

#[test]
fn descriptor_ndim_grows_with_ones() {
    let mut desc = NDArrayDesc::with_dims(DataType::Int16, vec![4, 5]);
    desc.set_ndim(4);
    assert_eq!(desc.ndim(), 4);
    assert_eq!(desc.dim_len(0), 4);
    assert_eq!(desc.dim_len(1), 5);
    assert_eq!(desc.dim_len(2), 1);
    assert_eq!(desc.dim_len(3), 1);

    desc.set_ndim(1);
    assert_eq!(desc.ndim(), 1);
    assert_eq!(desc.dim_len(0), 4);

    desc.set_data_type(DataType::UInt8);
    assert_eq!(desc.data_type(), DataType::UInt8);

    let slice = desc.dim_slice_range(0);
    assert_eq!(slice.start, 0);
    assert_eq!(slice.length, 4);
}
