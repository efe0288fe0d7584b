//! The attention block: self-attention wrapped with its output sublayer.

use vstd::prelude::*;

pub mod self_attention;
pub mod self_output;

use crate::backend::dims_of;
use crate::names::{join, joined};
use crate::weights::{tensors_of, WeightSource};
use crate::{Config, ModelError};
use self_attention::{self_attn_complete, self_attn_missing, SelfAttention};
use self_output::{self_out_complete, self_out_missing, SelfOutput};

verus! {

/// Self-attention followed by the residual-and-normalize output sublayer.
pub struct Attention {
    /// The multi-head self-attention sublayer.
    pub self_attention: SelfAttention,
    /// Projection, residual and normalization over its result.
    pub self_output: SelfOutput,
}

/// Every tensor of the attention block rooted at `p` is stored with its
/// required shape.
pub open spec fn attn_complete(m: Map<Seq<char>, Seq<usize>>, p: Seq<char>, c: Config) -> bool {
    &&& self_attn_complete(m, joined(p, "self"@), c)
    &&& self_out_complete(m, joined(p, "output"@), c)
}

/// `e` names a tensor of the attention block rooted at `p` that is not
/// stored with its required shape.
pub open spec fn attn_missing(
    m: Map<Seq<char>, Seq<usize>>,
    p: Seq<char>,
    c: Config,
    e: ModelError,
) -> bool {
    ||| self_attn_missing(m, joined(p, "self"@), c, e)
    ||| self_out_missing(m, joined(p, "output"@), c, e)
}

impl Attention {
    /// Shape well-formedness: both sublayers, over one width.
    pub open spec fn wf(self) -> bool {
        &&& self.self_attention.wf()
        &&& self.self_output.wf()
        &&& self.self_attention.hidden_size == self.self_output.hidden_size
    }

    /// Width of one feature vector.
    pub open spec fn hidden(self) -> usize {
        self.self_output.hidden_size
    }

    /// The value `forward` computes: self-attention, then the output
    /// sublayer with the original input as residual.
    pub open spec fn forward_spec(self, hidden_states: candle_core::Tensor) -> candle_core::Tensor {
        self.self_output.forward_spec(
            self.self_attention.forward_spec(hidden_states),
            hidden_states,
        )
    }

    /// Loads both sublayers rooted at `prefix`.
    pub fn load(ws: &WeightSource, prefix: &str, config: &Config) -> (r: Result<
        Attention,
        ModelError,
    >)
        requires
            config.valid(),
        ensures
            r is Ok <==> attn_complete(tensors_of(*ws), prefix@, *config),
            r is Ok ==> r->Ok_0.wf() && r->Ok_0.hidden() == config.hidden_size,
            r is Err ==> attn_missing(tensors_of(*ws), prefix@, *config, r->Err_0),
    {
        let self_prefix = join(prefix, "self");
        let self_attention = SelfAttention::load(ws, self_prefix.as_str(), config)?;
        let out_prefix = join(prefix, "output");
        let self_output = SelfOutput::load(ws, out_prefix.as_str(), config)?;
        Ok(Attention { self_attention, self_output })
    }

    /// Runs self-attention, then projects, adds the original hidden states
    /// as a residual, and normalizes; the innermost dimension becomes the
    /// block's width, the outer two are preserved.
    pub fn forward(&self, hidden_states: &candle_core::Tensor) -> (r: Result<
        candle_core::Tensor,
        ModelError,
    >)
        requires
            self.wf(),
        ensures
            r is Ok ==> dims_of(*hidden_states).len() == 3 && dims_of(r->Ok_0) == dims_of(
                *hidden_states,
            ).update(2, self.hidden()),
            r is Ok ==> r->Ok_0 == self.forward_spec(*hidden_states),
            r is Err ==> r->Err_0 is Tensor,
    {
        let self_outputs = self.self_attention.forward(hidden_states)?;
        let attention_output = self.self_output.forward(&self_outputs, hidden_states)?;
        proof {
            assert(dims_of(attention_output) =~= dims_of(*hidden_states).update(
                2,
                self.hidden(),
            ));
        }
        Ok(attention_output)
    }
}

} // verus!
