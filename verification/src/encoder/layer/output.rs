//! Feed-forward output sublayer: contraction, residual, normalize.

use vstd::prelude::*;

use crate::backend::{add_of, dims_of, lin_forward, lin_forward_of, linear_out, scalar_of, tensor_add};
use crate::names::{join, joined};
use crate::norm::{norm_complete, norm_missing, LayerNorm};
use crate::weights::{linear_complete, linear_missing, load_linear, tensors_of, WeightSource};
use crate::{dropout_inference, lift, Config, FloatBits, ModelError};

verus! {

/// Dense projection `intermediate_size -> hidden_size`, inference-mode
/// dropout, residual against the attention block's output, and layer
/// normalization.
pub struct Output {
    /// Contraction projection.
    pub dense: candle_nn::Linear,
    /// Normalization applied after the residual sum.
    pub layer_norm: LayerNorm,
    /// Width of one feature vector.
    pub hidden_size: usize,
    /// Dropout probability (bit pattern), kept for a training mode.
    pub dropout_prob: FloatBits,
}

/// Every tensor of the feed-forward output sublayer rooted at `p` is stored
/// with its required shape.
pub open spec fn out_complete(m: Map<Seq<char>, Seq<usize>>, p: Seq<char>, c: Config) -> bool {
    &&& linear_complete(m, joined(p, "dense"@), c.intermediate_size, c.hidden_size)
    &&& norm_complete(m, joined(p, "LayerNorm"@), c.hidden_size)
}

/// `e` names a tensor of the feed-forward output sublayer rooted at `p`
/// that is not stored with its required shape.
pub open spec fn out_missing(
    m: Map<Seq<char>, Seq<usize>>,
    p: Seq<char>,
    c: Config,
    e: ModelError,
) -> bool {
    ||| linear_missing(m, joined(p, "dense"@), c.intermediate_size, c.hidden_size, e)
    ||| norm_missing(m, joined(p, "LayerNorm"@), c.hidden_size, e)
}

impl Output {
    /// Shape well-formedness.
    pub open spec fn wf(self) -> bool {
        &&& linear_out(self.dense) == self.hidden_size
        &&& self.layer_norm.wf()
        &&& self.layer_norm.dim() == self.hidden_size
    }

    /// The value `forward` computes: the contracted feed-forward result
    /// plus the residual `input_tensor`, layer-normalized (dropout is the
    /// identity in inference).
    pub open spec fn forward_spec(
        self,
        hidden_states: candle_core::Tensor,
        input_tensor: candle_core::Tensor,
    ) -> candle_core::Tensor {
        self.layer_norm.forward_spec(
            add_of(lin_forward_of(self.dense, hidden_states), input_tensor),
        )
    }

    /// Loads the contraction projection and normalization rooted at
    /// `prefix`.
    pub fn load(ws: &WeightSource, prefix: &str, config: &Config) -> (r: Result<
        Output,
        ModelError,
    >)
        ensures
            r is Ok <==> out_complete(tensors_of(*ws), prefix@, *config),
            r is Ok ==> r->Ok_0.wf() && r->Ok_0.hidden_size == config.hidden_size
                && r->Ok_0.layer_norm.eps == scalar_of(config.layer_norm_eps.bits),
            r is Err ==> out_missing(tensors_of(*ws), prefix@, *config, r->Err_0),
    {
        let dense_prefix = join(prefix, "dense");
        let dense = load_linear(ws, dense_prefix.as_str(), config.intermediate_size,
            config.hidden_size)?;
        let norm_prefix = join(prefix, "LayerNorm");
        let layer_norm = LayerNorm::load(ws, norm_prefix.as_str(), config.hidden_size,
            config.layer_norm_eps)?;
        Ok(
            Output {
                dense,
                layer_norm,
                hidden_size: config.hidden_size,
                dropout_prob: config.hidden_dropout_prob,
            },
        )
    }

    /// Contracts each position back to `hidden_size`, adds `input_tensor`
    /// (the attention block's output) as a residual, and normalizes; the
    /// innermost dimension becomes `hidden_size`, the rest are preserved.
    pub fn forward(
        &self,
        hidden_states: &candle_core::Tensor,
        input_tensor: &candle_core::Tensor,
    ) -> (r: Result<candle_core::Tensor, ModelError>)
        requires
            self.wf(),
        ensures
            r is Ok ==> {
                let d = dims_of(*hidden_states);
                &&& d.len() >= 2
                &&& dims_of(r->Ok_0) == d.update(d.len() - 1, self.hidden_size)
            },
            r is Ok ==> r->Ok_0 == self.forward_spec(*hidden_states, *input_tensor),
            r is Err ==> r->Err_0 is Tensor,
    {
        let hidden_states = lift(lin_forward(&self.dense, hidden_states))?;
        let hidden_states = dropout_inference(hidden_states);
        let hidden_states = lift(tensor_add(&hidden_states, input_tensor))?;
        self.layer_norm.forward(&hidden_states)
    }
}

} // verus!
