//! Position-wise feed-forward expansion with the configured activation.

use vstd::prelude::*;

use crate::backend::{dims_of, lin_forward, lin_forward_of, linear_out};
use crate::names::{join, joined};
use crate::weights::{linear_complete, linear_missing, load_linear, tensors_of, WeightSource};
use crate::{act_value, Config, HiddenActLayer, ModelError};

verus! {

/// Dense projection `hidden_size -> intermediate_size` followed by the
/// configured activation.
pub struct Intermediate {
    /// Expansion projection.
    pub dense: candle_nn::Linear,
    /// The configured elementwise non-linearity.
    pub intermediate_act: HiddenActLayer,
    /// Width of the expanded representation.
    pub intermediate_size: usize,
}

/// Every tensor of the intermediate sublayer rooted at `p` is stored with
/// its required shape.
pub open spec fn inter_complete(m: Map<Seq<char>, Seq<usize>>, p: Seq<char>, c: Config) -> bool {
    linear_complete(m, joined(p, "dense"@), c.hidden_size, c.intermediate_size)
}

/// `e` names a tensor of the intermediate sublayer rooted at `p` that is
/// not stored with its required shape.
pub open spec fn inter_missing(
    m: Map<Seq<char>, Seq<usize>>,
    p: Seq<char>,
    c: Config,
    e: ModelError,
) -> bool {
    linear_missing(m, joined(p, "dense"@), c.hidden_size, c.intermediate_size, e)
}

impl Intermediate {
    /// Shape well-formedness.
    pub open spec fn wf(self) -> bool {
        linear_out(self.dense) == self.intermediate_size
    }

    /// The value `forward` computes: the expanded projection passed through
    /// the configured activation.
    pub open spec fn forward_spec(self, hidden_states: candle_core::Tensor) -> candle_core::Tensor {
        act_value(self.intermediate_act.act, lin_forward_of(self.dense, hidden_states))
    }

    /// Loads the expansion projection rooted at `prefix` and records the
    /// configured activation.
    pub fn load(ws: &WeightSource, prefix: &str, config: &Config) -> (r: Result<
        Intermediate,
        ModelError,
    >)
        ensures
            r is Ok <==> inter_complete(tensors_of(*ws), prefix@, *config),
            r is Ok ==> r->Ok_0.wf() && r->Ok_0.intermediate_size == config.intermediate_size
                && r->Ok_0.intermediate_act.act == config.hidden_act,
            r is Err ==> inter_missing(tensors_of(*ws), prefix@, *config, r->Err_0),
    {
        let dense_prefix = join(prefix, "dense");
        let dense = load_linear(ws, dense_prefix.as_str(), config.hidden_size,
            config.intermediate_size)?;
        Ok(
            Intermediate {
                dense,
                intermediate_act: HiddenActLayer::new(config.hidden_act),
                intermediate_size: config.intermediate_size,
            },
        )
    }

    /// Projects each position into the intermediate width and applies the
    /// activation; the innermost dimension becomes `intermediate_size`, the
    /// rest are preserved.
    pub fn forward(&self, hidden_states: &candle_core::Tensor) -> (r: Result<
        candle_core::Tensor,
        ModelError,
    >)
        requires
            self.wf(),
        ensures
            r is Ok ==> {
                let d = dims_of(*hidden_states);
                &&& d.len() >= 2
                &&& dims_of(r->Ok_0) == d.update(d.len() - 1, self.intermediate_size)
            },
            r is Ok ==> r->Ok_0 == self.forward_spec(*hidden_states),
            r is Err ==> r->Err_0 is Tensor,
    {
        let hidden_states = crate::lift(lin_forward(&self.dense, hidden_states))?;
        self.intermediate_act.forward(&hidden_states)
    }
}

} // verus!
