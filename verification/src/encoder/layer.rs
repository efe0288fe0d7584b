//! One encoder layer: attention block, then feed-forward block.

use vstd::prelude::*;

pub mod attention;
pub mod intermediate;
pub mod output;

use crate::backend::dims_of;
use crate::names::{join, joined};
use crate::weights::{tensors_of, WeightSource};
use crate::{Config, ModelError};
use attention::{attn_complete, attn_missing, Attention};
use intermediate::{inter_complete, inter_missing, Intermediate};
use output::{out_complete, out_missing, Output};

verus! {

/// One encoder layer, shape-preserving over `[batch, seq_len, hidden_size]`:
/// the attention block feeds the position-wise feed-forward block.
pub struct Layer {
    /// Self-attention with its output sublayer.
    pub attention: Attention,
    /// Feed-forward expansion.
    pub intermediate: Intermediate,
    /// Feed-forward contraction with residual and normalization.
    pub output: Output,
}

/// Every tensor of the layer rooted at `p` is stored with its required
/// shape.
pub open spec fn layer_complete(m: Map<Seq<char>, Seq<usize>>, p: Seq<char>, c: Config) -> bool {
    &&& attn_complete(m, joined(p, "attention"@), c)
    &&& inter_complete(m, joined(p, "intermediate"@), c)
    &&& out_complete(m, joined(p, "output"@), c)
}

/// `e` names a tensor of the layer rooted at `p` that is not stored with
/// its required shape.
pub open spec fn layer_missing(
    m: Map<Seq<char>, Seq<usize>>,
    p: Seq<char>,
    c: Config,
    e: ModelError,
) -> bool {
    ||| attn_missing(m, joined(p, "attention"@), c, e)
    ||| inter_missing(m, joined(p, "intermediate"@), c, e)
    ||| out_missing(m, joined(p, "output"@), c, e)
}

impl Layer {
    /// Shape well-formedness: all three blocks, over one width.
    pub open spec fn wf(self) -> bool {
        &&& self.attention.wf()
        &&& self.intermediate.wf()
        &&& self.output.wf()
        &&& self.attention.hidden() == self.output.hidden_size
    }

    /// Width of one feature vector.
    pub open spec fn hidden(self) -> usize {
        self.output.hidden_size
    }

    /// The value `forward` computes: the attention block's output fed to
    /// the feed-forward blocks, with the residual taken against the
    /// attention output.
    pub open spec fn forward_spec(self, hidden_states: candle_core::Tensor) -> candle_core::Tensor {
        let attention_output = self.attention.forward_spec(hidden_states);
        self.output.forward_spec(
            self.intermediate.forward_spec(attention_output),
            attention_output,
        )
    }

    /// Loads the attention, intermediate and output blocks rooted at
    /// `prefix`.
    pub fn load(ws: &WeightSource, prefix: &str, config: &Config) -> (r: Result<
        Layer,
        ModelError,
    >)
        requires
            config.valid(),
        ensures
            r is Ok <==> layer_complete(tensors_of(*ws), prefix@, *config),
            r is Ok ==> r->Ok_0.wf() && r->Ok_0.hidden() == config.hidden_size,
            r is Err ==> layer_missing(tensors_of(*ws), prefix@, *config, r->Err_0),
    {
        let attn_prefix = join(prefix, "attention");
        let attention = Attention::load(ws, attn_prefix.as_str(), config)?;
        let inter_prefix = join(prefix, "intermediate");
        let intermediate = Intermediate::load(ws, inter_prefix.as_str(), config)?;
        let out_prefix = join(prefix, "output");
        let output = Output::load(ws, out_prefix.as_str(), config)?;
        Ok(Layer { attention, intermediate, output })
    }

    /// Applies the attention block, then the feed-forward block with its
    /// residual against the attention output; the innermost dimension
    /// becomes the layer's width, the outer two are preserved.
    pub fn forward(&self, hidden_states: &candle_core::Tensor) -> (r: Result<
        candle_core::Tensor,
        ModelError,
    >)
        requires
            self.wf(),
        ensures
            r is Ok ==> dims_of(*hidden_states).len() == 3 && dims_of(r->Ok_0) == dims_of(
                *hidden_states,
            ).update(2, self.hidden()),
            r is Ok ==> r->Ok_0 == self.forward_spec(*hidden_states),
            r is Err ==> r->Err_0 is Tensor,
    {
        let attention_output = self.attention.forward(hidden_states)?;
        let intermediate_output = self.intermediate.forward(&attention_output)?;
        let layer_output = self.output.forward(&intermediate_output, &attention_output)?;
        proof {
            assert(dims_of(layer_output) =~= dims_of(*hidden_states).update(2, self.hidden()));
        }
        Ok(layer_output)
    }
}

} // verus!
