//! Shape operations of the compute graph.
//!
//! Every operation builds a new tensor whose shape is computed — and
//! stated — from the operands: broadcasting fills out leading and
//! length-one dimensions, concatenation sums one dimension, expansion
//! inserts length-one dimensions, reshaping preserves the element count,
//! transposition swaps two dimensions and slicing narrows one.

use vstd::prelude::*;

use crate::mps::{element_count, DataType};

verus! {

/// A tensor of the compute graph: an element type and a shape.
pub struct Tensor {
    pub dtype: DataType,
    pub dims: Vec<usize>,
}

impl Tensor {
    /// A tensor with the given element type and shape.
    pub fn new(dtype: DataType, dims: Vec<usize>) -> (t: Tensor)
        ensures
            t.dtype == dtype,
            t.dims@ == dims@,
    {
        Tensor { dtype, dims }
    }
}

/// Whether `from` broadcasts to `to`: aligned at the trailing end, every
/// dimension of `from` either matches `to`'s or is one.
pub open spec fn broadcastable(from: Seq<usize>, to: Seq<usize>) -> bool {
    &&& from.len() <= to.len()
    &&& forall|k: int|
        0 <= k < from.len() ==> #[trigger] from[from.len() - 1 - k] == to[to.len() - 1 - k]
            || from[from.len() - 1 - k] == 1
}

/// Total length of the concatenated dimension.
pub open spec fn concat_len(ts: Seq<Tensor>, d: int) -> int
    decreases ts.len(),
{
    if ts.len() == 0 {
        0
    } else {
        concat_len(ts.drop_last(), d) + ts.last().dims@[d]
    }
}

/// Whether `t` can join a concatenation with `t0` along `d`: same rank,
/// same element type, same lengths everywhere but `d`.
pub open spec fn concat_compatible(t: Tensor, t0: Tensor, d: int) -> bool {
    &&& t.dims@.len() == t0.dims@.len()
    &&& t.dtype == t0.dtype
    &&& forall|k: int| 0 <= k < t0.dims@.len() && k != d ==> t.dims@[k] == #[trigger] t0.dims@[k]
}

/// A prefix contributes no more than the whole concatenation.
proof fn lemma_concat_len_take_le(ts: Seq<Tensor>, i: int, d: int)
    requires
        0 <= i <= ts.len(),
        forall|j: int| 0 <= j < ts.len() ==> (#[trigger] ts[j].dims@[d]) >= 0,
    ensures
        concat_len(ts.take(i), d) <= concat_len(ts, d),
    decreases ts.len(),
{
    if i == ts.len() {
        assert(ts.take(i) =~= ts);
    } else {
        assert(ts.take(i) =~= ts.drop_last().take(i));
        assert forall|j: int| 0 <= j < ts.drop_last().len() implies (#[trigger] ts.drop_last()[j].dims@[d])
            >= 0 by {
            assert(ts.drop_last()[j] == ts[j]);
        }
        lemma_concat_len_take_le(ts.drop_last(), i, d);
    }
}

/// Extending the prefix by one tensor adds its dimension's length.
proof fn lemma_concat_len_take_step(ts: Seq<Tensor>, i: int, d: int)
    requires
        0 <= i < ts.len(),
    ensures
        concat_len(ts.take(i + 1), d) == concat_len(ts.take(i), d) + ts[i].dims@[d],
{
    assert(ts.take(i + 1).drop_last() =~= ts.take(i));
    assert(ts.take(i + 1).last() == ts[i]);
}

/// A negative axis counts from the trailing end of the expanded shape.
pub open spec fn norm_axis(len: nat, axis: isize) -> int {
    if axis < 0 {
        len + 1 + axis
    } else {
        axis as int
    }
}

/// Whether one axis is in range for a shape of the given rank.
pub open spec fn axis_ok(len: nat, axis: isize) -> bool {
    -(len + 1) <= axis <= len
}

/// The shape after inserting a length-one dimension at one axis.
pub open spec fn expand_one(dims: Seq<usize>, axis: isize) -> Seq<usize> {
    dims.insert(norm_axis(dims.len(), axis), 1usize)
}

/// The shape after inserting length-one dimensions at each axis in
/// order; each axis indexes the shape as expanded so far.
pub open spec fn expand_all(dims: Seq<usize>, axes: Seq<isize>) -> Seq<usize>
    decreases axes.len(),
{
    if axes.len() == 0 {
        dims
    } else {
        expand_all(expand_one(dims, axes.first()), axes.drop_first())
    }
}

/// Whether every axis is in range at its turn.
pub open spec fn axes_ok(dims: Seq<usize>, axes: Seq<isize>) -> bool
    decreases axes.len(),
{
    if axes.len() == 0 {
        true
    } else {
        axis_ok(dims.len(), axes.first()) && axes_ok(expand_one(dims, axes.first()), axes.drop_first())
    }
}

/// The compute graph the shape operations build into.
pub struct Graph {
    nodes: u64,
}

/// Copies a shape vector.
fn copy_dims(dims: &Vec<usize>) -> (r: Vec<usize>)
    ensures
        r@ == dims@,
{
    let n = dims.len();
    let mut out: Vec<usize> = Vec::new();
    let mut i: usize = 0;
    while i < n
        invariant
            n == dims@.len(),
            i <= n,
            out@ == dims@.take(i as int),
        decreases n - i,
    {
        out.push(dims[i]);
        proof {
            assert(dims@.take(i as int + 1) =~= dims@.take(i as int).push(dims@[i as int]));
        }
        i = i + 1;
    }
    proof {
        assert(dims@.take(n as int) =~= dims@);
    }
    out
}

impl Graph {
    /// An empty compute graph.
    pub fn new() -> (g: Graph) {
        Graph { nodes: 0 }
    }

    /// Broadcasts a tensor to a shape, returned autoreleased by the
    /// foreign call; in this value model it is the same tensor value as
    /// [`Graph::broadcast`].
    pub fn broadcast_ar(&self, tensor: &Tensor, shape: &Vec<usize>, name: Option<&str>) -> (r:
        Tensor)
        requires
            broadcastable(tensor.dims@, shape@),
        ensures
            r.dims@ == shape@,
            r.dtype == tensor.dtype,
    {
        let _ = name;
        Tensor { dtype: tensor.dtype, dims: copy_dims(shape) }
    }

    /// Broadcasts a tensor to a shape: every dimension of the tensor,
    /// aligned at the trailing end, must match the target or be one.
    pub fn broadcast(&self, tensor: &Tensor, shape: &Vec<usize>, name: Option<&str>) -> (r: Tensor)
        requires
            broadcastable(tensor.dims@, shape@),
        ensures
            r.dims@ == shape@,
            r.dtype == tensor.dtype,
    {
        self.broadcast_ar(tensor, shape, name)
    }

    /// Concatenates tensors along one dimension: all operands share the
    /// element type and every dimension but the concatenated one, whose
    /// lengths add up.
    pub fn concat(&self, tensors: &Vec<Tensor>, dimension: usize, name: Option<&str>) -> (r:
        Tensor)
        requires
            tensors@.len() > 0,
            (dimension as nat) < tensors@[0].dims@.len(),
            forall|i: int|
                0 <= i < tensors@.len() ==> concat_compatible(
                    #[trigger] tensors@[i],
                    tensors@[0],
                    dimension as int,
                ),
            concat_len(tensors@, dimension as int) <= usize::MAX,
        ensures
            r.dims@ == tensors@[0].dims@.update(
                dimension as int,
                concat_len(tensors@, dimension as int) as usize,
            ),
            r.dtype == tensors@[0].dtype,
    {
        self.concat_tensors(tensors, dimension, name)
    }

    /// Concatenates tensors along one dimension, returned autoreleased
    /// by the foreign call; the same tensor value as
    /// [`Graph::concat_tensors`].
    pub fn concat_tensors_ar(&self, tensors: &Vec<Tensor>, dimension: usize, name: Option<&str>) -> (r:
        Tensor)
        requires
            tensors@.len() > 0,
            (dimension as nat) < tensors@[0].dims@.len(),
            forall|i: int|
                0 <= i < tensors@.len() ==> concat_compatible(
                    #[trigger] tensors@[i],
                    tensors@[0],
                    dimension as int,
                ),
            concat_len(tensors@, dimension as int) <= usize::MAX,
        ensures
            r.dims@ == tensors@[0].dims@.update(
                dimension as int,
                concat_len(tensors@, dimension as int) as usize,
            ),
            r.dtype == tensors@[0].dtype,
    {
        let _ = name;
        let ghost d = dimension as int;
        let n = tensors.len();
        let mut total: usize = 0;
        let mut i: usize = 0;
        while i < n
            invariant
                n == tensors@.len(),
                i <= n,
                (dimension as nat) < tensors@[0].dims@.len(),
                forall|j: int|
                    0 <= j < n ==> concat_compatible(#[trigger] tensors@[j], tensors@[0], d),
                concat_len(tensors@, d) <= usize::MAX,
                d == dimension as int,
                total == concat_len(tensors@.take(i as int), d),
            decreases n - i,
        {
            proof {
                assert(concat_compatible(tensors@[i as int], tensors@[0], d));
                lemma_concat_len_take_step(tensors@, i as int, d);
                assert forall|j: int| 0 <= j < tensors@.len() implies (
                #[trigger] tensors@[j].dims@[d]) >= 0 by {
                    assert(concat_compatible(tensors@[j], tensors@[0], d));
                }
                lemma_concat_len_take_le(tensors@, i as int + 1, d);
            }
            total = total + tensors[i].dims[dimension];
            i = i + 1;
        }
        proof {
            assert(tensors@.take(n as int) =~= tensors@);
        }
        let first = &tensors[0];
        let mut dims = copy_dims(&first.dims);
        dims.set(dimension, total);
        Tensor { dtype: first.dtype, dims }
    }

    /// Concatenates tensors along one dimension.
    pub fn concat_tensors(&self, tensors: &Vec<Tensor>, dimension: usize, name: Option<&str>) -> (r:
        Tensor)
        requires
            tensors@.len() > 0,
            (dimension as nat) < tensors@[0].dims@.len(),
            forall|i: int|
                0 <= i < tensors@.len() ==> concat_compatible(
                    #[trigger] tensors@[i],
                    tensors@[0],
                    dimension as int,
                ),
            concat_len(tensors@, dimension as int) <= usize::MAX,
        ensures
            r.dims@ == tensors@[0].dims@.update(
                dimension as int,
                concat_len(tensors@, dimension as int) as usize,
            ),
            r.dtype == tensors@[0].dtype,
    {
        self.concat_tensors_ar(tensors, dimension, name)
    }

    /// Inserts a length-one dimension at one axis, returned autoreleased
    /// by the foreign call; the same tensor value as
    /// [`Graph::expand_dims`].
    pub fn expand_dims_ar(&self, tensor: &Tensor, axis: isize, name: Option<&str>) -> (r: Tensor)
        requires
            axis_ok(tensor.dims@.len(), axis),
            tensor.dims@.len() < usize::MAX / 2,
        ensures
            r.dims@ == expand_one(tensor.dims@, axis),
            r.dtype == tensor.dtype,
    {
        let _ = name;
        let mut dims = copy_dims(&tensor.dims);
        let norm: usize = if axis < 0 {
            (((dims.len() as isize) + 1) + axis) as usize
        } else {
            axis as usize
        };
        dims.insert(norm, 1);
        Tensor { dtype: tensor.dtype, dims }
    }

    /// Inserts a length-one dimension at one axis; a negative axis
    /// counts from the trailing end of the expanded shape.
    pub fn expand_dims(&self, tensor: &Tensor, axis: isize, name: Option<&str>) -> (r: Tensor)
        requires
            axis_ok(tensor.dims@.len(), axis),
            tensor.dims@.len() < usize::MAX / 2,
        ensures
            r.dims@ == expand_one(tensor.dims@, axis),
            r.dtype == tensor.dtype,
    {
        self.expand_dims_ar(tensor, axis, name)
    }

    /// Inserts length-one dimensions at each axis in order, returned
    /// autoreleased by the foreign call; the same tensor value as
    /// [`Graph::expand_dims_axes`].
    pub fn expand_dims_axes_ar(&self, tensor: &Tensor, axes: &Vec<isize>, name: Option<&str>) -> (r:
        Tensor)
        requires
            axes_ok(tensor.dims@, axes@),
            tensor.dims@.len() + axes@.len() < usize::MAX / 2,
        ensures
            r.dims@ == expand_all(tensor.dims@, axes@),
            r.dtype == tensor.dtype,
    {
        let _ = name;
        let n = axes.len();
        let mut dims = copy_dims(&tensor.dims);
        let mut i: usize = 0;
        proof {
            assert(axes@.skip(0) =~= axes@);
        }
        while i < n
            invariant
                n == axes@.len(),
                i <= n,
                dims@.len() == tensor.dims@.len() + i,
                tensor.dims@.len() + n < usize::MAX / 2,
                axes_ok(dims@, axes@.skip(i as int)),
                expand_all(dims@, axes@.skip(i as int)) == expand_all(tensor.dims@, axes@),
            decreases n - i,
        {
            let ghost pre = dims@;
            proof {
                assert(axes@.skip(i as int).first() == axes@[i as int]);
                assert(axes@.skip(i as int).drop_first() =~= axes@.skip(i as int + 1));
            }
            let axis = axes[i];
            let norm: usize = if axis < 0 {
                (((dims.len() as isize) + 1) + axis) as usize
            } else {
                axis as usize
            };
            dims.insert(norm, 1);
            proof {
                assert(dims@ == expand_one(pre, axes@[i as int]));
            }
            i = i + 1;
        }
        proof {
            assert(axes@.skip(n as int) =~= Seq::<isize>::empty());
        }
        Tensor { dtype: tensor.dtype, dims }
    }

    /// Inserts length-one dimensions at each axis in order; each axis
    /// indexes the shape as expanded so far.
    pub fn expand_dims_axes(&self, tensor: &Tensor, axes: &Vec<isize>, name: Option<&str>) -> (r:
        Tensor)
        requires
            axes_ok(tensor.dims@, axes@),
            tensor.dims@.len() + axes@.len() < usize::MAX / 2,
        ensures
            r.dims@ == expand_all(tensor.dims@, axes@),
            r.dtype == tensor.dtype,
    {
        self.expand_dims_axes_ar(tensor, axes, name)
    }

    /// Reshapes a tensor, returned autoreleased by the foreign call; the
    /// same tensor value as [`Graph::reshape`].
    pub fn reshape_ar(&self, tensor: &Tensor, shape: &Vec<usize>, name: Option<&str>) -> (r:
        Tensor)
        requires
            element_count(shape@) == element_count(tensor.dims@),
        ensures
            r.dims@ == shape@,
            r.dtype == tensor.dtype,
    {
        let _ = name;
        Tensor { dtype: tensor.dtype, dims: copy_dims(shape) }
    }

    /// Reshapes a tensor to a shape holding exactly as many elements.
    pub fn reshape(&self, tensor: &Tensor, shape: &Vec<usize>, name: Option<&str>) -> (r: Tensor)
        requires
            element_count(shape@) == element_count(tensor.dims@),
        ensures
            r.dims@ == shape@,
            r.dtype == tensor.dtype,
    {
        self.reshape_ar(tensor, shape, name)
    }

    /// Swaps two dimensions, returned autoreleased by the foreign call;
    /// the same tensor value as [`Graph::transpose_with_dimension`].
    pub fn transpose_with_dimension_ar(
        &self,
        tensor: &Tensor,
        dimention: usize,
        with_dimention: usize,
        name: Option<&str>,
    ) -> (r: Tensor)
        requires
            (dimention as nat) < tensor.dims@.len(),
            (with_dimention as nat) < tensor.dims@.len(),
        ensures
            r.dims@ == tensor.dims@.update(
                dimention as int,
                tensor.dims@[with_dimention as int],
            ).update(with_dimention as int, tensor.dims@[dimention as int]),
            r.dtype == tensor.dtype,
    {
        let _ = name;
        let mut dims = copy_dims(&tensor.dims);
        let a = dims[dimention];
        let b = dims[with_dimention];
        dims.set(dimention, b);
        dims.set(with_dimention, a);
        Tensor { dtype: tensor.dtype, dims }
    }

    /// Swaps two dimensions of a tensor's shape.
    pub fn transpose_with_dimension(
        &self,
        tensor: &Tensor,
        dimention: usize,
        with_dimention: usize,
        name: Option<&str>,
    ) -> (r: Tensor)
        requires
            (dimention as nat) < tensor.dims@.len(),
            (with_dimention as nat) < tensor.dims@.len(),
        ensures
            r.dims@ == tensor.dims@.update(
                dimention as int,
                tensor.dims@[with_dimention as int],
            ).update(with_dimention as int, tensor.dims@[dimention as int]),
            r.dtype == tensor.dtype,
    {
        self.transpose_with_dimension_ar(tensor, dimention, with_dimention, name)
    }

    /// Casts a tensor's elements, returned autoreleased by the foreign
    /// call; the same tensor value as [`Graph::cast`].
    pub fn cast_ar(&self, tensor: &Tensor, to_type: DataType, name: Option<&str>) -> (r: Tensor)
        ensures
            r.dims@ == tensor.dims@,
            r.dtype == to_type,
    {
        let _ = name;
        Tensor { dtype: to_type, dims: copy_dims(&tensor.dims) }
    }

    /// Casts a tensor's elements to another type; the shape stays.
    pub fn cast(&self, tensor: &Tensor, to_type: DataType, name: Option<&str>) -> (r: Tensor)
        ensures
            r.dims@ == tensor.dims@,
            r.dtype == to_type,
    {
        self.cast_ar(tensor, to_type, name)
    }

    /// Slices one dimension, returned autoreleased by the foreign call;
    /// the same tensor value as [`Graph::slice_tensor`].
    pub fn slice_tensor_ar(
        &self,
        tensor: &Tensor,
        dimension: usize,
        start: isize,
        length: isize,
        name: Option<&str>,
    ) -> (r: Tensor)
        requires
            (dimension as nat) < tensor.dims@.len(),
            0 <= start,
            0 <= length,
            start + length <= tensor.dims@[dimension as int],
        ensures
            r.dims@ == tensor.dims@.update(dimension as int, length as usize),
            r.dtype == tensor.dtype,
    {
        let _ = name;
        let _ = start;
        let mut dims = copy_dims(&tensor.dims);
        dims.set(dimension, length as usize);
        Tensor { dtype: tensor.dtype, dims }
    }

    /// Narrows one dimension to `length` elements starting at `start`.
    pub fn slice_tensor(
        &self,
        tensor: &Tensor,
        dimension: usize,
        start: isize,
        length: isize,
        name: Option<&str>,
    ) -> (r: Tensor)
        requires
            (dimension as nat) < tensor.dims@.len(),
            0 <= start,
            0 <= length,
            start + length <= tensor.dims@[dimension as int],
        ensures
            r.dims@ == tensor.dims@.update(dimension as int, length as usize),
            r.dtype == tensor.dtype,
    {
        self.slice_tensor_ar(tensor, dimension, start, length, name)
    }
}

} // verus!
