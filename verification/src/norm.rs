//! Layer normalization over the innermost (hidden) dimension.

use vstd::prelude::*;

use crate::backend::{
    broadcast_add, broadcast_add_of, broadcast_div, broadcast_div_of, broadcast_mul,
    broadcast_mul_of, broadcast_sub, broadcast_sub_of, broadcasts_to, dims_of, mean_keepdim,
    mean_keepdim_of, scalar_from_bits, scalar_of, sqr, sqr_of, sqrt, sqrt_of, tensor_rank,
};
use crate::names::joined;
use crate::weights::{get_weight, tensors_of, WeightSource};
use crate::{lift, FloatBits, ModelError};

verus! {

/// Standardizes each feature vector along the innermost dimension to zero
/// mean and unit variance (biased estimator), with `eps` added inside the
/// variance denominator, then rescales by a learned per-feature weight and
/// bias.
pub struct LayerNorm {
    /// Per-feature scale, shape `[dim]`.
    pub weight: candle_core::Tensor,
    /// Per-feature shift, shape `[dim]`.
    pub bias: candle_core::Tensor,
    /// Single-element tensor holding the stabilizing epsilon.
    pub eps: candle_core::Tensor,
}

/// Both tensors of a layer-norm sublayer rooted at `p` are stored, each of
/// shape `[dim]`.
pub open spec fn norm_complete(m: Map<Seq<char>, Seq<usize>>, p: Seq<char>, dim: usize) -> bool {
    &&& m.contains_pair(joined(p, "weight"@), seq![dim])
    &&& m.contains_pair(joined(p, "bias"@), seq![dim])
}

/// `e` names a tensor of the layer-norm sublayer rooted at `p` that is not
/// stored with its required shape.
pub open spec fn norm_missing(
    m: Map<Seq<char>, Seq<usize>>,
    p: Seq<char>,
    dim: usize,
    e: ModelError,
) -> bool {
    match e {
        ModelError::Weight { name, .. } => {
            ||| (name@ == joined(p, "weight"@) && !m.contains_pair(joined(p, "weight"@), seq![dim]))
            ||| (name@ == joined(p, "bias"@) && !m.contains_pair(joined(p, "bias"@), seq![dim]))
        },
        _ => false,
    }
}

impl LayerNorm {
    /// The feature dimension this normalization was built for.
    pub open spec fn dim(self) -> usize {
        dims_of(self.weight)[0]
    }

    /// Shape well-formedness: weight and bias are `[dim]`, eps is a scalar.
    pub open spec fn wf(self) -> bool {
        &&& dims_of(self.weight).len() == 1
        &&& dims_of(self.bias) == dims_of(self.weight)
        &&& dims_of(self.eps) == seq![1usize]
    }

    /// The value `forward` computes on `x`: center by the mean over the
    /// innermost dimension, divide by the square root of the biased
    /// variance plus eps, then rescale by weight and shift by bias.
    pub open spec fn forward_spec(self, x: candle_core::Tensor) -> candle_core::Tensor {
        let last = (dims_of(x).len() - 1) as usize;
        let centered = broadcast_sub_of(x, mean_keepdim_of(x, last));
        let variance = mean_keepdim_of(sqr_of(centered), last);
        let normed = broadcast_div_of(centered, sqrt_of(broadcast_add_of(variance, self.eps)));
        broadcast_add_of(broadcast_mul_of(normed, self.weight), self.bias)
    }

    /// Loads the `weight` and `bias` tensors rooted at `prefix`, each of
    /// shape `[dim]`, and materializes `eps` from its bit pattern.
    pub fn load(ws: &WeightSource, prefix: &str, dim: usize, eps: FloatBits) -> (r: Result<
        LayerNorm,
        ModelError,
    >)
        ensures
            r is Ok <==> norm_complete(tensors_of(*ws), prefix@, dim),
            r is Ok ==> r->Ok_0.wf() && r->Ok_0.dim() == dim && r->Ok_0.eps == scalar_of(
                eps.bits,
            ),
            r is Err ==> norm_missing(tensors_of(*ws), prefix@, dim, r->Err_0),
    {
        let w_dims = vec![dim];
        let b_dims = vec![dim];
        proof {
            assert(w_dims@ =~= seq![dim]);
            assert(b_dims@ =~= seq![dim]);
        }
        let weight = get_weight(ws, crate::names::join(prefix, "weight"), w_dims)?;
        let bias = get_weight(ws, crate::names::join(prefix, "bias"), b_dims)?;
        Ok(LayerNorm { weight, bias, eps: scalar_from_bits(eps.bits) })
    }

    /// Normalizes each feature vector of `x` along the innermost dimension,
    /// then applies the learned affine rescaling; the shape is preserved.
    pub fn forward(&self, x: &candle_core::Tensor) -> (r: Result<
        candle_core::Tensor,
        ModelError,
    >)
        requires
            self.wf(),
            dims_of(*x).len() >= 1,
            dims_of(*x)[dims_of(*x).len() - 1] == self.dim(),
        ensures
            r is Ok ==> dims_of(r->Ok_0) == dims_of(*x),
            r is Ok ==> r->Ok_0 == self.forward_spec(*x),
            r is Err ==> r->Err_0 is Tensor,
    {
        let ghost d = dims_of(*x);
        let rank = tensor_rank(x);
        let mean = lift(mean_keepdim(x, rank - 1))?;
        proof {
            assert(broadcasts_to(dims_of(mean), d));
        }
        let centered = lift(broadcast_sub(x, &mean))?;
        let var = lift(mean_keepdim(&lift(sqr(&centered))?, rank - 1))?;
        proof {
            assert(broadcasts_to(dims_of(self.eps), dims_of(var)));
        }
        let denom = lift(sqrt(&lift(broadcast_add(&var, &self.eps))?))?;
        proof {
            assert(broadcasts_to(dims_of(denom), d));
        }
        let normed = lift(broadcast_div(&centered, &denom))?;
        proof {
            assert(broadcasts_to(dims_of(self.weight), d));
            assert(broadcasts_to(dims_of(self.bias), d));
        }
        let scaled = lift(broadcast_mul(&normed, &self.weight))?;
        lift(broadcast_add(&scaled, &self.bias))
    }
}

} // verus!
