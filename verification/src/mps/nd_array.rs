//! Typed n-dimensional arrays and their descriptors.

use vstd::prelude::*;

use crate::mps::{data_type_size_spec, element_count, DataType, DimensionSlice};
use crate::mtl::Device;

verus! {

/// Allocates array storage; the default allocator suffices for every
/// array this model builds.
pub struct NDArrayAllocator {
    marker: bool,
}

/// Shape and element type of an array.
pub struct NDArrayDesc {
    data_type: DataType,
    dims: Vec<usize>,
}

impl NDArrayDesc {
    /// The element type.
    pub closed spec fn data_type_spec(self) -> DataType {
        self.data_type
    }

    /// The dimension lengths, outermost first.
    pub closed spec fn dims_view(self) -> Seq<usize> {
        self.dims@
    }

    /// A descriptor with the given element type and dimension lengths.
    pub fn with_dims(data_type: DataType, dims: Vec<usize>) -> (d: NDArrayDesc)
        ensures
            d.data_type_spec() == data_type,
            d.dims_view() == dims@,
    {
        NDArrayDesc { data_type, dims }
    }

    /// The element type.
    pub fn data_type(&self) -> (t: DataType)
        ensures
            t == self.data_type_spec(),
    {
        self.data_type
    }

    /// Changes the element type; the shape stays.
    pub fn set_data_type(&mut self, value: DataType)
        ensures
            final(self).data_type_spec() == value,
            final(self).dims_view() == old(self).dims_view(),
    {
        self.data_type = value;
    }

    /// How many dimensions the shape has.
    pub fn ndim(&self) -> (n: usize)
        ensures
            (n as nat) == self.dims_view().len(),
    {
        self.dims.len()
    }

    /// Changes the number of dimensions: a smaller count keeps the
    /// leading dimensions, a larger one appends dimensions of length
    /// one.
    pub fn set_ndim(&mut self, value: usize)
        ensures
            final(self).data_type_spec() == old(self).data_type_spec(),
            (value as nat) <= old(self).dims_view().len() ==> final(self).dims_view() == old(self).dims_view().take(value as int),
            (value as nat) > old(self).dims_view().len() ==> {
                &&& final(self).dims_view().len() == value
                &&& final(self).dims_view().take(old(self).dims_view().len() as int) == old(self).dims_view()
                &&& forall|i: int|
                    old(self).dims_view().len() <= i < value ==> #[trigger] final(self).dims_view()[i] == 1
            },
    {
        if value <= self.dims.len() {
            self.dims.truncate(value);
            proof {
                assert(self.dims@ =~= old(self).dims@.take(value as int));
            }
        } else {
            let ghost pre = self.dims@;
            let ghost pre_dt = self.data_type;
            while self.dims.len() < value
                invariant
                    self.data_type == pre_dt,
                    pre.len() < value,
                    pre.len() <= self.dims@.len() <= value,
                    self.dims@.take(pre.len() as int) == pre,
                    forall|i: int|
                        pre.len() <= i < self.dims@.len() ==> #[trigger] self.dims@[i] == 1,
                decreases value - self.dims@.len(),
            {
                self.dims.push(1);
                proof {
                    assert(self.dims@.take(pre.len() as int) =~= pre);
                }
            }
            proof {
                assert(self.dims@.take(pre.len() as int) =~= pre);
            }
        }
    }

    /// The length of one dimension.
    pub fn dim_len(&self, dim_index: usize) -> (l: usize)
        requires
            (dim_index as nat) < self.dims_view().len(),
        ensures
            l == self.dims_view()[dim_index as int],
    {
        self.dims[dim_index]
    }

    /// The slice a dimension currently exposes: the whole dimension.
    pub fn dim_slice_range(&self, dim_index: usize) -> (s: DimensionSlice)
        requires
            (dim_index as nat) < self.dims_view().len(),
        ensures
            s.start == 0,
            s.length == self.dims_view()[dim_index as int],
    {
        DimensionSlice { start: 0, length: self.dims[dim_index] }
    }
}

/// A typed n-dimensional array on one device.
pub struct NDArray {
    desc: NDArrayDesc,
    device: Device,
    label: Option<String>,
    data: Vec<u8>,
}

impl NDArray {
    /// The array's descriptor.
    pub closed spec fn desc_spec(self) -> NDArrayDesc {
        self.desc
    }

    /// The array's element bytes, row-major.
    pub closed spec fn data_view(self) -> Seq<u8> {
        self.data@
    }

    /// The device holding the array.
    pub closed spec fn device_spec(self) -> Device {
        self.device
    }

    /// The array's label, if one is set.
    pub closed spec fn label_view(self) -> Option<String> {
        self.label
    }

    /// The bytes the array's shape and element type call for.
    pub open spec fn byte_count(desc: NDArrayDesc) -> nat {
        element_count(desc.dims_view()) * data_type_size_spec(desc.data_type_spec())
    }

    /// The default array allocator.
    pub fn default_allocator() -> (a: NDArrayAllocator) {
        NDArrayAllocator { marker: true }
    }

    /// An array over the given bytes, which must fill the descriptor's
    /// shape exactly.
    pub fn with_data(device: Device, desc: NDArrayDesc, data: Vec<u8>) -> (a: NDArray)
        requires
            data@.len() == NDArray::byte_count(desc),
        ensures
            a.desc_spec() == desc,
            a.device_spec() == device,
            a.data_view() == data@,
            a.label_view() is None,
    {
        NDArray { desc, device, label: None, data }
    }

    /// The array's label, if one is set.
    pub fn label(&self) -> (r: Option<&String>)
        ensures
            match r {
                Some(s) => self.label_view() matches Some(l) && s@ == l@,
                None => self.label_view() is None,
            },
    {
        self.label.as_ref()
    }

    /// Sets or clears the array's label.
    pub fn set_label(&mut self, value: Option<String>)
        ensures
            final(self).label_view() == value,
            final(self).desc_spec() == old(self).desc_spec(),
            final(self).data_view() == old(self).data_view(),
            final(self).device_spec() == old(self).device_spec(),
    {
        self.label = value;
    }

    /// The element type.
    pub fn data_type(&self) -> (t: DataType)
        ensures
            t == self.desc_spec().data_type_spec(),
    {
        self.desc.data_type()
    }

    /// Copies the array's bytes into the given buffer, replacing its
    /// contents.
    pub fn read_bytes(&self, bytes: &mut Vec<u8>)
        ensures
            final(bytes)@ == self.data_view(),
    {
        bytes.clear();
        let n = self.data.len();
        let mut i: usize = 0;
        while i < n
            invariant
                n == self.data@.len(),
                i <= n,
                bytes@ == self.data@.take(i as int),
            decreases n - i,
        {
            bytes.push(self.data[i]);
            proof {
                assert(self.data@.take(i as int + 1) =~= self.data@.take(i as int).push(
                    self.data@[i as int],
                ));
            }
            i = i + 1;
        }
        proof {
            assert(self.data@.take(n as int) =~= self.data@);
        }
    }

    /// Size in bytes of one element.
    pub fn data_type_size(&self) -> (s: usize)
        ensures
            (s as nat) == data_type_size_spec(self.desc_spec().data_type_spec()),
    {
        match self.desc.data_type() {
            DataType::Invalid => 0,
            DataType::Float32 => 4,
            DataType::Float16 => 2,
            DataType::BFloat16 => 2,
            DataType::Int8 => 1,
            DataType::Int16 => 2,
            DataType::Int32 => 4,
            DataType::Int64 => 8,
            DataType::UInt8 => 1,
            DataType::UInt16 => 2,
            DataType::UInt32 => 4,
            DataType::UInt64 => 8,
            DataType::Bool => 1,
        }
    }

    /// How many dimensions the array has.
    pub fn ndim(&self) -> (n: usize)
        ensures
            (n as nat) == self.desc_spec().dims_view().len(),
    {
        self.desc.ndim()
    }

    /// The length of one dimension.
    pub fn dim_len(&self, dimension_index: usize) -> (l: usize)
        requires
            (dimension_index as nat) < self.desc_spec().dims_view().len(),
        ensures
            l == self.desc_spec().dims_view()[dimension_index as int],
    {
        self.desc.dim_len(dimension_index)
    }

    /// The device holding the array.
    pub fn device(&self) -> (d: Device)
        ensures
            d == self.device_spec(),
    {
        self.device
    }

    /// The array's descriptor.
    pub fn descriptor(&self) -> (d: &NDArrayDesc)
        ensures
            *d == self.desc_spec(),
    {
        &self.desc
    }
}

} // verus!
