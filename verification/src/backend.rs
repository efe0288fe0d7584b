//! Trusted boundary to the `candle` tensor backend.
//!
//! The verified core reasons about a tensor through its shape, [`dims_of`],
//! and through uninterpreted names for each operation's result (such as
//! [`matmul_of`]): each result is a function of its arguments alone, so the
//! core can state which composition of backend operations a value is,
//! without restating their numerics. Every function here is
//! `external_body`: its contract states what the named `candle` operation
//! does to shapes, as the `candle` sources show it, and names its result.

use vstd::prelude::*;

use candle_core::IndexOp;
use candle_core::Module;

verus! {

#[verifier::external_type_specification]
#[verifier::external_body]
pub struct ExTensor(candle_core::Tensor);

#[verifier::external_type_specification]
#[verifier::external_body]
pub struct ExDevice(candle_core::Device);

#[verifier::external_type_specification]
#[verifier::external_body]
pub struct ExError(candle_core::Error);

#[verifier::external_type_specification]
#[verifier::external_body]
pub struct ExEmbedding(candle_nn::Embedding);

#[verifier::external_type_specification]
#[verifier::external_body]
pub struct ExLinear(candle_nn::Linear);

/// The shape of a tensor: the extent of each of its dimensions, outermost
/// first. This is the whole of what the verified core knows of a tensor.
pub uninterp spec fn dims_of(t: candle_core::Tensor) -> Seq<usize>;

/// The hidden size an embedding table was built with: the length its
/// `forward` appends as the new innermost dimension.
pub uninterp spec fn emb_size(e: candle_nn::Embedding) -> usize;

/// The output features of a linear layer: the length its `forward` puts in
/// place of the innermost dimension.
pub uninterp spec fn linear_out(l: candle_nn::Linear) -> usize;

/// The device a tensor lives on.
pub uninterp spec fn device_of(t: candle_core::Tensor) -> candle_core::Device;

/// What `Tensor::new` returns for a `u32` slice on a device.
pub uninterp spec fn u32_tensor_of(v: Seq<u32>, dev: candle_core::Device) -> candle_core::Tensor;

/// What `Tensor`'s `Add` returns on two same-shape tensors.
pub uninterp spec fn add_of(a: candle_core::Tensor, b: candle_core::Tensor) -> candle_core::Tensor;

/// What `Tensor::broadcast_add` returns.
pub uninterp spec fn broadcast_add_of(
    a: candle_core::Tensor,
    b: candle_core::Tensor,
) -> candle_core::Tensor;

/// What `Tensor::broadcast_sub` returns.
pub uninterp spec fn broadcast_sub_of(
    a: candle_core::Tensor,
    b: candle_core::Tensor,
) -> candle_core::Tensor;

/// What `Tensor::broadcast_mul` returns.
pub uninterp spec fn broadcast_mul_of(
    a: candle_core::Tensor,
    b: candle_core::Tensor,
) -> candle_core::Tensor;

/// What `Tensor::broadcast_div` returns.
pub uninterp spec fn broadcast_div_of(
    a: candle_core::Tensor,
    b: candle_core::Tensor,
) -> candle_core::Tensor;

/// What `Tensor::matmul` returns.
pub uninterp spec fn matmul_of(
    a: candle_core::Tensor,
    b: candle_core::Tensor,
) -> candle_core::Tensor;

/// What `Tensor::transpose` returns.
pub uninterp spec fn transpose_of(
    t: candle_core::Tensor,
    d1: usize,
    d2: usize,
) -> candle_core::Tensor;

/// What `Tensor::reshape` returns for the given dimensions.
pub uninterp spec fn reshape_of(t: candle_core::Tensor, dims: Seq<usize>) -> candle_core::Tensor;

/// What `Tensor::contiguous` returns.
pub uninterp spec fn contiguous_of(t: candle_core::Tensor) -> candle_core::Tensor;

/// What `candle_nn::ops::softmax` returns along a dimension.
pub uninterp spec fn softmax_of(t: candle_core::Tensor, dim: usize) -> candle_core::Tensor;

/// What `Tensor::mean_keepdim` returns along a dimension.
pub uninterp spec fn mean_keepdim_of(t: candle_core::Tensor, dim: usize) -> candle_core::Tensor;

/// What `Tensor::sqr` returns.
pub uninterp spec fn sqr_of(t: candle_core::Tensor) -> candle_core::Tensor;

/// What `Tensor::sqrt` returns.
pub uninterp spec fn sqrt_of(t: candle_core::Tensor) -> candle_core::Tensor;

/// What `Tensor::tanh` returns.
pub uninterp spec fn tanh_of(t: candle_core::Tensor) -> candle_core::Tensor;

/// What `Tensor::relu` returns.
pub uninterp spec fn relu_of(t: candle_core::Tensor) -> candle_core::Tensor;

/// What `Tensor::gelu_erf` returns.
pub uninterp spec fn gelu_erf_of(t: candle_core::Tensor) -> candle_core::Tensor;

/// What `Tensor::i((.., 0))` returns: the first-token slice.
pub uninterp spec fn first_token_of(t: candle_core::Tensor) -> candle_core::Tensor;

/// The single-element 32-bit float tensor built from an IEEE-754 bit
/// pattern.
pub uninterp spec fn scalar_of(bits: u64) -> candle_core::Tensor;

/// The single-element 32-bit float tensor holding `sqrt(n)`.
pub uninterp spec fn sqrt_scalar_of(n: u32) -> candle_core::Tensor;

/// What an `Embedding`'s `forward` returns for an id tensor.
pub uninterp spec fn emb_forward_of(
    e: candle_nn::Embedding,
    ids: candle_core::Tensor,
) -> candle_core::Tensor;

/// What a `Linear`'s `forward` returns for an input tensor.
pub uninterp spec fn lin_forward_of(
    l: candle_nn::Linear,
    x: candle_core::Tensor,
) -> candle_core::Tensor;

/// `small` broadcasts into `big` without changing `big`'s shape: aligned at
/// the innermost end, each dimension of `small` either matches or is 1.
pub open spec fn broadcasts_to(small: Seq<usize>, big: Seq<usize>) -> bool {
    &&& small.len() <= big.len()
    &&& forall|i: int|
        0 <= i < small.len() ==> #[trigger] small[i] == big[big.len() - small.len() + i]
            || small[i] == 1
}

/// Relies on `Tensor::clone`: a clone is the same tensor value.
#[verifier::external_body]
pub fn tensor_clone(t: &candle_core::Tensor) -> (r: candle_core::Tensor)
    ensures
        r == *t,
{
    t.clone()
}

/// Relies on `Tensor::device` (and `Device::clone`): the device the tensor
/// lives on.
#[verifier::external_body]
pub fn tensor_device(t: &candle_core::Tensor) -> (r: candle_core::Device)
    ensures
        r == device_of(*t),
{
    t.device().clone()
}

/// Relies on `Tensor::rank`: the number of dimensions.
#[verifier::external_body]
pub fn tensor_rank(t: &candle_core::Tensor) -> (r: usize)
    ensures
        r == dims_of(*t).len(),
{
    t.rank()
}

/// Relies on `Tensor::dims2`: succeeds exactly on rank-2 tensors and returns
/// both extents.
#[verifier::external_body]
pub fn dims2(t: &candle_core::Tensor) -> (r: Result<(usize, usize), candle_core::Error>)
    ensures
        r is Ok <==> dims_of(*t).len() == 2,
        r is Ok ==> dims_of(*t) == seq![(r->Ok_0).0, (r->Ok_0).1],
{
    t.dims2()
}

/// Relies on `Tensor::dims3`: succeeds exactly on rank-3 tensors and returns
/// all three extents.
#[verifier::external_body]
pub fn dims3(t: &candle_core::Tensor) -> (r: Result<(usize, usize, usize), candle_core::Error>)
    ensures
        r is Ok <==> dims_of(*t).len() == 3,
        r is Ok ==> dims_of(*t) == seq![(r->Ok_0).0, (r->Ok_0).1, (r->Ok_0).2],
{
    t.dims3()
}

/// Relies on `Tensor::new` on a `u32` slice: a one-dimensional tensor of the
/// given values.
#[verifier::external_body]
pub fn tensor_of_u32(v: &Vec<u32>, dev: &candle_core::Device) -> (r: Result<
    candle_core::Tensor,
    candle_core::Error,
>)
    ensures
        r is Ok ==> dims_of(r->Ok_0) == seq![v.len()] && r->Ok_0 == u32_tensor_of(v@, *dev),
{
    candle_core::Tensor::new(v.as_slice(), dev)
}

/// Relies on `Tensor`'s `Add`: elementwise sum of two tensors of one shape;
/// the result keeps that shape.
#[verifier::external_body]
pub fn tensor_add(a: &candle_core::Tensor, b: &candle_core::Tensor) -> (r: Result<
    candle_core::Tensor,
    candle_core::Error,
>)
    ensures
        r is Ok ==> dims_of(*a) == dims_of(*b) && dims_of(r->Ok_0) == dims_of(*a) && r->Ok_0
            == add_of(*a, *b),
{
    a + b
}

/// Relies on `Tensor::broadcast_add`: when `b` broadcasts into `a`, the
/// result keeps `a`'s shape.
#[verifier::external_body]
pub fn broadcast_add(a: &candle_core::Tensor, b: &candle_core::Tensor) -> (r: Result<
    candle_core::Tensor,
    candle_core::Error,
>)
    ensures
        r is Ok && broadcasts_to(dims_of(*b), dims_of(*a)) ==> dims_of(r->Ok_0) == dims_of(*a),
        r is Ok ==> r->Ok_0 == broadcast_add_of(*a, *b),
{
    a.broadcast_add(b)
}

/// Relies on `Tensor::broadcast_sub`: as [`broadcast_add`], elementwise
/// difference.
#[verifier::external_body]
pub fn broadcast_sub(a: &candle_core::Tensor, b: &candle_core::Tensor) -> (r: Result<
    candle_core::Tensor,
    candle_core::Error,
>)
    ensures
        r is Ok && broadcasts_to(dims_of(*b), dims_of(*a)) ==> dims_of(r->Ok_0) == dims_of(*a),
        r is Ok ==> r->Ok_0 == broadcast_sub_of(*a, *b),
{
    a.broadcast_sub(b)
}

/// Relies on `Tensor::broadcast_mul`: as [`broadcast_add`], elementwise
/// product.
#[verifier::external_body]
pub fn broadcast_mul(a: &candle_core::Tensor, b: &candle_core::Tensor) -> (r: Result<
    candle_core::Tensor,
    candle_core::Error,
>)
    ensures
        r is Ok && broadcasts_to(dims_of(*b), dims_of(*a)) ==> dims_of(r->Ok_0) == dims_of(*a),
        r is Ok ==> r->Ok_0 == broadcast_mul_of(*a, *b),
{
    a.broadcast_mul(b)
}

/// Relies on `Tensor::broadcast_div`: as [`broadcast_add`], elementwise
/// quotient.
#[verifier::external_body]
pub fn broadcast_div(a: &candle_core::Tensor, b: &candle_core::Tensor) -> (r: Result<
    candle_core::Tensor,
    candle_core::Error,
>)
    ensures
        r is Ok && broadcasts_to(dims_of(*b), dims_of(*a)) ==> dims_of(r->Ok_0) == dims_of(*a),
        r is Ok ==> r->Ok_0 == broadcast_div_of(*a, *b),
{
    a.broadcast_div(b)
}

/// Relies on `Tensor::matmul`: batched matrix product. Both operands have
/// one rank, at least 2; the result keeps `a`'s shape but for the innermost
/// dimension, which becomes `b`'s innermost.
#[verifier::external_body]
pub fn matmul(a: &candle_core::Tensor, b: &candle_core::Tensor) -> (r: Result<
    candle_core::Tensor,
    candle_core::Error,
>)
    ensures
        r is Ok ==> {
            let d = dims_of(*a);
            &&& d.len() >= 2
            &&& dims_of(*b).len() == d.len()
            &&& dims_of(r->Ok_0) == d.update(d.len() - 1, dims_of(*b)[d.len() - 1])
        },
        r is Ok ==> r->Ok_0 == matmul_of(*a, *b),
{
    a.matmul(b)
}

/// Relies on `Tensor::transpose`: swaps two dimensions, both within rank.
#[verifier::external_body]
pub fn transpose(t: &candle_core::Tensor, d1: usize, d2: usize) -> (r: Result<
    candle_core::Tensor,
    candle_core::Error,
>)
    ensures
        r is Ok ==> {
            let d = dims_of(*t);
            &&& d1 < d.len()
            &&& d2 < d.len()
            &&& dims_of(r->Ok_0) == d.update(d1 as int, d[d2 as int]).update(d2 as int, d[d1 as int])
        },
        r is Ok ==> r->Ok_0 == transpose_of(*t, d1, d2),
{
    t.transpose(d1, d2)
}

/// Relies on `Tensor::reshape`: same element count laid out with the given
/// dimensions.
#[verifier::external_body]
pub fn reshape_to(t: &candle_core::Tensor, dims: &Vec<usize>) -> (r: Result<
    candle_core::Tensor,
    candle_core::Error,
>)
    ensures
        r is Ok ==> dims_of(r->Ok_0) == dims@ && r->Ok_0 == reshape_of(*t, dims@),
{
    t.reshape(dims.as_slice())
}

/// Relies on `Tensor::contiguous`: same shape, contiguous layout.
#[verifier::external_body]
pub fn contiguous(t: &candle_core::Tensor) -> (r: Result<
    candle_core::Tensor,
    candle_core::Error,
>)
    ensures
        r is Ok ==> dims_of(r->Ok_0) == dims_of(*t) && r->Ok_0 == contiguous_of(*t),
{
    t.contiguous()
}

/// Relies on `candle_nn::ops::softmax`: normalizes along one dimension,
/// shape preserved.
#[verifier::external_body]
pub fn softmax(t: &candle_core::Tensor, dim: usize) -> (r: Result<
    candle_core::Tensor,
    candle_core::Error,
>)
    ensures
        r is Ok ==> dims_of(r->Ok_0) == dims_of(*t) && r->Ok_0 == softmax_of(*t, dim),
{
    candle_nn::ops::softmax(t, dim)
}

/// Relies on `Tensor::mean_keepdim`: averages along one dimension, whose
/// extent becomes 1.
#[verifier::external_body]
pub fn mean_keepdim(t: &candle_core::Tensor, dim: usize) -> (r: Result<
    candle_core::Tensor,
    candle_core::Error,
>)
    ensures
        r is Ok ==> dim < dims_of(*t).len() && dims_of(r->Ok_0) == dims_of(*t).update(
            dim as int,
            1usize,
        ),
        r is Ok ==> r->Ok_0 == mean_keepdim_of(*t, dim),
{
    t.mean_keepdim(dim)
}

/// Relies on `Tensor::sqr`: elementwise square, shape preserved.
#[verifier::external_body]
pub fn sqr(t: &candle_core::Tensor) -> (r: Result<candle_core::Tensor, candle_core::Error>)
    ensures
        r is Ok ==> dims_of(r->Ok_0) == dims_of(*t) && r->Ok_0 == sqr_of(*t),
{
    t.sqr()
}

/// Relies on `Tensor::sqrt`: elementwise square root, shape preserved.
#[verifier::external_body]
pub fn sqrt(t: &candle_core::Tensor) -> (r: Result<candle_core::Tensor, candle_core::Error>)
    ensures
        r is Ok ==> dims_of(r->Ok_0) == dims_of(*t) && r->Ok_0 == sqrt_of(*t),
{
    t.sqrt()
}

/// Relies on `Tensor::tanh`: elementwise hyperbolic tangent, shape
/// preserved.
#[verifier::external_body]
pub fn tanh(t: &candle_core::Tensor) -> (r: Result<candle_core::Tensor, candle_core::Error>)
    ensures
        r is Ok ==> dims_of(r->Ok_0) == dims_of(*t) && r->Ok_0 == tanh_of(*t),
{
    t.tanh()
}

/// Relies on `Tensor::relu`: elementwise `max(x, 0)`, shape preserved.
#[verifier::external_body]
pub fn relu(t: &candle_core::Tensor) -> (r: Result<candle_core::Tensor, candle_core::Error>)
    ensures
        r is Ok ==> dims_of(r->Ok_0) == dims_of(*t) && r->Ok_0 == relu_of(*t),
{
    t.relu()
}

/// Relies on `Tensor::gelu_erf`: the exact, erf-based GELU (not the tanh
/// approximation), elementwise, shape preserved.
#[verifier::external_body]
pub fn gelu_erf(t: &candle_core::Tensor) -> (r: Result<candle_core::Tensor, candle_core::Error>)
    ensures
        r is Ok ==> dims_of(r->Ok_0) == dims_of(*t) && r->Ok_0 == gelu_erf_of(*t),
{
    t.gelu_erf()
}

/// Relies on `Tensor::i((.., 0))`: selects index 0 along dimension 1 and
/// drops that dimension.
#[verifier::external_body]
pub fn first_token(t: &candle_core::Tensor) -> (r: Result<
    candle_core::Tensor,
    candle_core::Error,
>)
    ensures
        r is Ok ==> dims_of(*t).len() >= 2 && dims_of(r->Ok_0) == dims_of(*t).remove(1) && r->Ok_0
            == first_token_of(*t),
{
    t.i((.., 0))
}

/// Relies on `Tensor::from_raw_buffer` and `Tensor::to_dtype` on the CPU
/// device: turns the bit pattern of a 64-bit IEEE-754 value into a
/// single-element 32-bit float tensor. Both calls are infallible here: the
/// buffer length matches the dtype and CPU conversions do not fail.
#[verifier::external_body]
pub fn scalar_from_bits(bits: u64) -> (r: candle_core::Tensor)
    ensures
        dims_of(r) == seq![1usize],
        r == scalar_of(bits),
{
    let bytes = bits.to_le_bytes();
    let t = candle_core::Tensor::from_raw_buffer(
        &bytes,
        candle_core::DType::F64,
        &[1],
        &candle_core::Device::Cpu,
    ).unwrap();
    t.to_dtype(candle_core::DType::F32).unwrap()
}

/// Relies on `Tensor::new`, `Tensor::to_dtype` and `Tensor::sqrt` on the CPU
/// device: a single-element 32-bit float tensor holding `sqrt(n)`. All three
/// calls are infallible on a CPU-resident numeric tensor.
#[verifier::external_body]
pub fn sqrt_scalar(n: u32) -> (r: candle_core::Tensor)
    ensures
        dims_of(r) == seq![1usize],
        r == sqrt_scalar_of(n),
{
    let t = candle_core::Tensor::new(&[n], &candle_core::Device::Cpu).unwrap();
    t.to_dtype(candle_core::DType::F32).unwrap().sqrt().unwrap()
}

/// Relies on `Embedding::new`: records the table and the hidden size that
/// `forward` will append.
#[verifier::external_body]
pub fn emb_new(weights: candle_core::Tensor, hidden_size: usize) -> (r: candle_nn::Embedding)
    ensures
        emb_size(r) == hidden_size,
{
    candle_nn::Embedding::new(weights, hidden_size)
}

/// Relies on `Embedding`'s `Module::forward`: looks each id up in the table;
/// the result appends the hidden size as a new innermost dimension.
#[verifier::external_body]
pub fn emb_forward(e: &candle_nn::Embedding, ids: &candle_core::Tensor) -> (r: Result<
    candle_core::Tensor,
    candle_core::Error,
>)
    ensures
        r is Ok ==> dims_of(r->Ok_0) == dims_of(*ids).push(emb_size(*e)) && r->Ok_0
            == emb_forward_of(*e, *ids),
{
    e.forward(ids)
}

/// Relies on `Linear::new`: records `weight` (shape `[out, in]`) and `bias`
/// (shape `[out]`); `forward` computes `x @ weight^T + bias`.
#[verifier::external_body]
pub fn lin_new(weight: candle_core::Tensor, bias: candle_core::Tensor) -> (r: candle_nn::Linear)
    requires
        dims_of(weight).len() == 2,
        dims_of(bias) == seq![dims_of(weight)[0]],
    ensures
        linear_out(r) == dims_of(weight)[0],
{
    candle_nn::Linear::new(weight, Some(bias))
}

/// Relies on `Linear`'s `Module::forward`: applies the affine map position
/// by position; the innermost dimension becomes the layer's output features.
#[verifier::external_body]
pub fn lin_forward(l: &candle_nn::Linear, x: &candle_core::Tensor) -> (r: Result<
    candle_core::Tensor,
    candle_core::Error,
>)
    ensures
        r is Ok ==> {
            let d = dims_of(*x);
            &&& d.len() >= 2
            &&& dims_of(r->Ok_0) == d.update(d.len() - 1, linear_out(*l))
        },
        r is Ok ==> r->Ok_0 == lin_forward_of(*l, *x),
{
    l.forward(x)
}

} // verus!
