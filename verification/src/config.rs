use vstd::prelude::*;

verus! {

/// The bit pattern of a 64-bit IEEE-754 value.
///
/// The verified core never computes with floating-point numbers; values such
/// as the layer-normalization epsilon are carried through as raw bits and
/// only turned back into numbers by the tensor backend.
#[derive(Clone, Copy, PartialEq, Eq, Structural, Debug)]
pub struct FloatBits {
    pub bits: u64,
}

/// Kind of position embedding; only absolute positions are supported.
#[derive(Clone, Copy, PartialEq, Eq, Structural, Debug)]
pub enum PositionEmbeddingType {
    Absolute,
}

/// The non-linear activation applied inside the feed-forward sublayer.
#[derive(Clone, Copy, PartialEq, Eq, Structural, Debug)]
pub enum HiddenAct {
    Gelu,
    Relu,
    Tanh,
}

/// Configuration record governing every tensor shape in the model.
///
/// Read once at load time; the model holds no other shape information.
#[derive(Clone, Debug)]
pub struct Config {
    /// Number of distinct token ids accepted in `input_ids`.
    pub vocab_size: usize,
    /// Dimensionality of the per-token feature vector.
    pub hidden_size: usize,
    /// Number of stacked encoder layers.
    pub num_hidden_layers: usize,
    /// Number of attention heads per layer; must divide `hidden_size`.
    pub num_attention_heads: usize,
    /// Dimensionality of the feed-forward (intermediate) projection.
    pub intermediate_size: usize,
    /// Activation used by the feed-forward sublayer.
    pub hidden_act: HiddenAct,
    /// Dropout probability (bit pattern); identity during inference.
    pub hidden_dropout_prob: FloatBits,
    /// Largest sequence length the position table covers.
    pub max_position_embeddings: usize,
    /// Number of distinct token-type (segment) ids.
    pub type_vocab_size: usize,
    /// Epsilon (bit pattern) added inside the layer-norm variance denominator.
    pub layer_norm_eps: FloatBits,
    /// Id of the padding token.
    pub pad_token_id: usize,
    /// Kind of position embedding.
    pub position_embedding_type: PositionEmbeddingType,
    /// Dropout ratio (bit pattern) for a classification head, if any.
    pub classifier_dropout: Option<FloatBits>,
    /// Optional model-type tag; used as a weight-name prefix fallback.
    pub model_type: Option<String>,
    /// Number of labels for a classification head, if any.
    pub num_labels: Option<usize>,
}

impl Config {
    /// A configuration is valid when the heads evenly split the hidden size.
    pub open spec fn valid(self) -> bool {
        &&& self.num_attention_heads > 0
        &&& self.hidden_size % self.num_attention_heads == 0
    }

    /// Per-head dimensionality.
    pub open spec fn spec_head_dim(self) -> usize
        recommends
            self.valid(),
    {
        (self.hidden_size / self.num_attention_heads) as usize
    }

    /// Checks the dimension relationship required of every valid configuration.
    pub fn check_valid(&self) -> (r: bool)
        ensures
            r == self.valid(),
    {
        self.num_attention_heads > 0 && self.hidden_size % self.num_attention_heads == 0
    }

    /// Per-head dimensionality, `hidden_size / num_attention_heads`.
    pub fn head_dim(&self) -> (r: usize)
        requires
            self.valid(),
        ensures
            r == self.spec_head_dim(),
    {
        self.hidden_size / self.num_attention_heads
    }
}

} // verus!
