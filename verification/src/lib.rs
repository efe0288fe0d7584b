//! Forward-inference core of an ELECTRA-style transformer text encoder.
//!
//! A loaded [`Model`] turns a batch of token-id sequences into contextualized
//! hidden-state vectors; a [`Pooler`] reduces those to one vector per
//! sequence. Weight tensors come from a named-tensor provider; the numeric
//! kernels are supplied by the `candle` crates, trusted for what they do to
//! tensor shapes and named so that each forward contract pins its result to
//! an exact composition of backend operations.

use vstd::prelude::*;

pub mod backend;
mod config;
pub mod embeddings;
pub mod encoder;
pub mod names;
pub mod norm;
pub mod weights;

pub use config::{Config, FloatBits, HiddenAct, PositionEmbeddingType};

use backend::{
    dims_of, first_token, first_token_of, gelu_erf, gelu_erf_of, lin_forward, lin_forward_of,
    linear_out, relu, relu_of, tanh, tanh_of,
};
use encoder::fold_spec;
use embeddings::{emb_complete, emb_missing, Embeddings};
use encoder::{enc_complete, enc_missing, Encoder};
use names::{join, joined};
use weights::{linear_complete, linear_missing, load_linear, source_device_of, tensors_of, WeightSource};

verus! {

/// Why a model could not be loaded, or a forward call failed.
#[derive(Debug)]
pub enum ModelError {
    /// The configuration violates a required dimension relationship:
    /// `hidden_size` must be a positive multiple of `num_attention_heads`.
    Configuration,
    /// The weight tensor called `name` is absent from the provider, or
    /// present with another shape; `source` is the provider's own error.
    Weight { name: String, source: candle_core::Error },
    /// A runtime tensor failure from the backend, propagated verbatim.
    Tensor(candle_core::Error),
}

/// Inference-mode dropout: the identity. The call sites stay where a
/// training mode would randomize, but this core only ever runs inference.
pub fn dropout_inference(t: candle_core::Tensor) -> (r: candle_core::Tensor)
    ensures
        r == t,
{
    t
}

/// Moves a backend result into the library's error type, keeping the value.
pub fn lift<T>(r: Result<T, candle_core::Error>) -> (out: Result<T, ModelError>)
    ensures
        out is Ok <==> r is Ok,
        out is Ok ==> out->Ok_0 == r->Ok_0,
        out is Err ==> out->Err_0 is Tensor,
{
    match r {
        Ok(t) => Ok(t),
        Err(e) => Err(ModelError::Tensor(e)),
    }
}

/// The value an activation tag computes on a tensor.
pub open spec fn act_value(act: HiddenAct, t: candle_core::Tensor) -> candle_core::Tensor {
    match act {
        HiddenAct::Gelu => gelu_erf_of(t),
        HiddenAct::Relu => relu_of(t),
        HiddenAct::Tanh => tanh_of(t),
    }
}

/// Stateless dispatch from an activation tag to its elementwise transform.
pub struct HiddenActLayer {
    /// Which transform `forward` applies.
    pub act: HiddenAct,
}

impl HiddenActLayer {
    /// Records the activation tag to dispatch on.
    pub fn new(act: HiddenAct) -> (r: Self)
        ensures
            r.act == act,
    {
        HiddenActLayer { act }
    }

    /// Applies the tagged transform elementwise: erf-based GELU, ReLU, or
    /// the hyperbolic tangent. The shape is preserved.
    pub fn forward(&self, xs: &candle_core::Tensor) -> (r: Result<
        candle_core::Tensor,
        ModelError,
    >)
        ensures
            r is Ok ==> dims_of(r->Ok_0) == dims_of(*xs),
            r is Ok ==> r->Ok_0 == act_value(self.act, *xs),
            r is Err ==> r->Err_0 is Tensor,
    {
        match self.act {
            HiddenAct::Gelu => lift(gelu_erf(xs)),
            HiddenAct::Relu => lift(relu(xs)),
            HiddenAct::Tanh => lift(tanh(xs)),
        }
    }
}

/// Every tensor of the whole model under `root` is stored with its required
/// shape: the embeddings component under `<root>.embeddings` and every
/// encoder layer under `<root>.encoder`.
pub open spec fn model_complete(m: Map<Seq<char>, Seq<usize>>, root: Seq<char>, c: Config) -> bool {
    &&& emb_complete(m, joined(root, "embeddings"@), c)
    &&& enc_complete(m, joined(root, "encoder"@), c)
}

/// `e` names a tensor of the model under `root` that is not stored with its
/// required shape.
pub open spec fn model_missing(
    m: Map<Seq<char>, Seq<usize>>,
    root: Seq<char>,
    c: Config,
    e: ModelError,
) -> bool {
    ||| emb_missing(m, joined(root, "embeddings"@), c, e)
    ||| enc_missing(m, joined(root, "encoder"@), c, e)
}

/// The loaded encoder model: embeddings followed by the layer stack.
///
/// Constructed once by [`Model::load`]; holds no per-call mutable state, so
/// repeated `forward` calls are independent.
pub struct Model {
    /// Token, position and segment embeddings.
    pub embeddings: Embeddings,
    /// The stacked encoder layers.
    pub encoder: Encoder,
    /// The device the weights were loaded onto.
    pub device: candle_core::Device,
}

impl Model {
    /// Shape well-formedness: both components, over one width.
    pub open spec fn wf(self) -> bool {
        &&& self.embeddings.wf()
        &&& self.encoder.wf()
        &&& self.embeddings.hidden_size == self.encoder.hidden_size
    }

    /// Width of one feature vector.
    pub open spec fn hidden(self) -> usize {
        self.embeddings.hidden_size
    }

    /// Loads both components under `root`.
    fn load_at(ws: &WeightSource, root: &str, config: &Config) -> (r: Result<Model, ModelError>)
        requires
            config.valid(),
        ensures
            r is Ok <==> model_complete(tensors_of(*ws), root@, *config),
            r is Ok ==> r->Ok_0.wf() && r->Ok_0.hidden() == config.hidden_size
                && r->Ok_0.encoder.layers@.len() == config.num_hidden_layers
                && r->Ok_0.device == source_device_of(*ws),
            r is Err ==> model_missing(tensors_of(*ws), root@, *config, r->Err_0),
    {
        let emb_prefix = join(root, "embeddings");
        let embeddings = Embeddings::load(ws, emb_prefix.as_str(), config)?;
        let enc_prefix = join(root, "encoder");
        let encoder = Encoder::load(ws, enc_prefix.as_str(), config)?;
        Ok(Model { embeddings, encoder, device: ws.device() })
    }

    /// Loads the model from the provider.
    ///
    /// An invalid configuration (`hidden_size` not a positive multiple of
    /// `num_attention_heads`) fails with [`ModelError::Configuration`].
    /// Otherwise the weights are resolved under the canonical root; if any
    /// required tensor is absent there and `model_type` is set, the load is
    /// retried once under the `model_type` prefix; if that also fails, the
    /// canonical attempt's error is surfaced. The load succeeds exactly
    /// when one of the two roots stores every required tensor with its
    /// required shape.
    pub fn load(ws: &WeightSource, config: &Config) -> (r: Result<Model, ModelError>)
        ensures
            !config.valid() ==> r is Err && r->Err_0 is Configuration,
            config.valid() ==> ((r is Ok) <==> (model_complete(
                tensors_of(*ws),
                Seq::<char>::empty(),
                *config,
            ) || (config.model_type matches Some(mt) && model_complete(
                tensors_of(*ws),
                mt@,
                *config,
            )))),
            r is Ok ==> r->Ok_0.wf() && r->Ok_0.hidden() == config.hidden_size
                && r->Ok_0.encoder.layers@.len() == config.num_hidden_layers
                && r->Ok_0.device == source_device_of(*ws),
            config.valid() && r is Err ==> !model_complete(
                tensors_of(*ws),
                Seq::<char>::empty(),
                *config,
            ) && model_missing(tensors_of(*ws), Seq::<char>::empty(), *config, r->Err_0),
    {
        if !config.check_valid() {
            return Err(ModelError::Configuration);
        }
        proof {
            reveal_strlit("");
            assert(""@ =~= Seq::<char>::empty());
        }
        match Self::load_at(ws, "", config) {
            Ok(model) => Ok(model),
            Err(canonical_err) => match &config.model_type {
                Some(model_type) => match Self::load_at(ws, model_type.as_str(), config) {
                    Ok(model) => Ok(model),
                    Err(_) => Err(canonical_err),
                },
                None => Err(canonical_err),
            },
        }
    }

    /// Maps `(input_ids, token_type_ids)`, each `[batch, seq_len]`, to the
    /// contextualized `[batch, seq_len, hidden_size]` sequence output:
    /// embeddings, then the encoder stack.
    pub fn forward(
        &self,
        input_ids: &candle_core::Tensor,
        token_type_ids: &candle_core::Tensor,
    ) -> (r: Result<candle_core::Tensor, ModelError>)
        requires
            self.wf(),
        ensures
            r is Ok ==> dims_of(*input_ids).len() == 2 && dims_of(r->Ok_0) == dims_of(
                *input_ids,
            ).push(self.hidden()),
            r is Ok ==> r->Ok_0 == fold_spec(
                self.encoder.layers@,
                self.embeddings.forward_spec(*input_ids, *token_type_ids),
            ),
            r is Err ==> r->Err_0 is Tensor,
    {
        let embedding_output = self.embeddings.forward(input_ids, token_type_ids)?;
        proof {
            assert(dims_of(embedding_output).len() == 3);
            assert(dims_of(embedding_output)[2] == self.hidden());
        }
        let sequence_output = self.encoder.forward(&embedding_output)?;
        Ok(sequence_output)
    }
}

/// Determinism of the forward pass: two calls on one loaded model with
/// identical input tensors return identical outputs whenever both succeed,
/// since each success is pinned to the same composition of backend
/// operations over the same values.
pub fn forward_twice(
    model: &Model,
    input_ids: &candle_core::Tensor,
    token_type_ids: &candle_core::Tensor,
) -> (r: (Result<candle_core::Tensor, ModelError>, Result<candle_core::Tensor, ModelError>))
    requires
        model.wf(),
    ensures
        r.0 is Ok && r.1 is Ok ==> r.0->Ok_0 == r.1->Ok_0,
{
    (model.forward(input_ids, token_type_ids), model.forward(input_ids, token_type_ids))
}

/// Every tensor of the pooling head rooted at `p` is stored with its
/// required shape.
pub open spec fn pooler_complete(m: Map<Seq<char>, Seq<usize>>, p: Seq<char>, c: Config) -> bool {
    linear_complete(m, joined(p, "dense"@), c.hidden_size, c.hidden_size)
}

/// `e` names a tensor of the pooling head rooted at `p` that is not stored
/// with its required shape.
pub open spec fn pooler_missing(
    m: Map<Seq<char>, Seq<usize>>,
    p: Seq<char>,
    c: Config,
    e: ModelError,
) -> bool {
    linear_missing(m, joined(p, "dense"@), c.hidden_size, c.hidden_size, e)
}

/// Pools a sequence output down to one vector per sequence: the first
/// token's representation, a dense projection, and a fixed tanh.
pub struct Pooler {
    /// Projection, `hidden_size -> hidden_size`.
    pub dense: candle_nn::Linear,
    /// Always the hyperbolic tangent, whatever `hidden_act` is configured.
    pub activation: HiddenActLayer,
    /// Width of one feature vector.
    pub hidden_size: usize,
}

impl Pooler {
    /// Well-formedness: the projection is square over `hidden_size` and
    /// the activation tag is tanh, as every loaded pooler has it.
    pub open spec fn wf(self) -> bool {
        &&& linear_out(self.dense) == self.hidden_size
        &&& self.activation.act == HiddenAct::Tanh
    }

    /// Loads the pooling projection rooted at `prefix`. The activation is
    /// fixed to tanh, independent of the configured `hidden_act`.
    pub fn load(ws: &WeightSource, prefix: &str, config: &Config) -> (r: Result<
        Pooler,
        ModelError,
    >)
        ensures
            r is Ok <==> pooler_complete(tensors_of(*ws), prefix@, *config),
            r is Ok ==> r->Ok_0.wf() && r->Ok_0.hidden_size == config.hidden_size
                && r->Ok_0.activation.act == HiddenAct::Tanh,
            r is Err ==> pooler_missing(tensors_of(*ws), prefix@, *config, r->Err_0),
    {
        let dense_prefix = join(prefix, "dense");
        let dense = load_linear(ws, dense_prefix.as_str(), config.hidden_size,
            config.hidden_size)?;
        Ok(
            Pooler {
                dense,
                activation: HiddenActLayer::new(HiddenAct::Tanh),
                hidden_size: config.hidden_size,
            },
        )
    }

    /// Extracts the first-token slice `[:, 0, :]`, projects it, and applies
    /// tanh; a `[batch, seq_len, hidden_size]` input pools to
    /// `[batch, hidden_size]`.
    pub fn forward(&self, hidden_states: &candle_core::Tensor) -> (r: Result<
        candle_core::Tensor,
        ModelError,
    >)
        requires
            self.wf(),
        ensures
            r is Ok ==> {
                let d = dims_of(*hidden_states);
                &&& d.len() >= 3
                &&& dims_of(r->Ok_0) == d.remove(1).update(d.len() - 2, self.hidden_size)
            },
            r is Ok ==> r->Ok_0 == tanh_of(
                lin_forward_of(self.dense, first_token_of(*hidden_states)),
            ),
            r is Err ==> r->Err_0 is Tensor,
    {
        let first_token_tensor = lift(first_token(hidden_states))?;
        let pooled_output = lift(lin_forward(&self.dense, &first_token_tensor))?;
        let pooled_output = self.activation.forward(&pooled_output)?;
        Ok(pooled_output)
    }
}

} // verus!

