//! Token, position and segment embeddings, combined and normalized.

use vstd::prelude::*;

use crate::backend::{
    add_of, broadcast_add, broadcast_add_of, broadcasts_to, device_of, dims2, dims_of,
    emb_forward, emb_forward_of, emb_new, emb_size, scalar_of, tensor_add, tensor_device,
    tensor_of_u32, u32_tensor_of,
};
use crate::names::{join, joined};
use crate::norm::{norm_complete, norm_missing, LayerNorm};
use crate::weights::{get_weight, tensors_of, WeightSource};
use crate::{dropout_inference, lift, Config, FloatBits, ModelError};

verus! {

/// Maps `(input_ids, token_type_ids)`, each `[batch, seq_len]`, to a
/// `[batch, seq_len, hidden_size]` embedding tensor: word plus segment
/// embeddings, absolute position embeddings added by broadcast, layer
/// normalization, and an inference-mode (identity) dropout.
pub struct Embeddings {
    /// Token-id lookup table, `[vocab_size, hidden_size]`.
    pub word_embeddings: candle_nn::Embedding,
    /// Absolute-position lookup table, `[max_position_embeddings,
    /// hidden_size]`; optional in the record, always present under the only
    /// supported position-embedding type.
    pub position_embeddings: Option<candle_nn::Embedding>,
    /// Segment-id lookup table, `[type_vocab_size, hidden_size]`.
    pub token_type_embeddings: candle_nn::Embedding,
    /// Normalization applied to the combined embedding.
    pub layer_norm: LayerNorm,
    /// Width of one embedding vector.
    pub hidden_size: usize,
    /// Dropout probability (bit pattern), kept for a training mode; the
    /// inference pass applies dropout as the identity.
    pub dropout_prob: FloatBits,
}

/// Every tensor of the embeddings component rooted at `p` is stored with
/// its required shape.
pub open spec fn emb_complete(m: Map<Seq<char>, Seq<usize>>, p: Seq<char>, c: Config) -> bool {
    &&& m.contains_pair(
        joined(p, "word_embeddings.weight"@),
        seq![c.vocab_size, c.hidden_size],
    )
    &&& m.contains_pair(
        joined(p, "position_embeddings.weight"@),
        seq![c.max_position_embeddings, c.hidden_size],
    )
    &&& m.contains_pair(
        joined(p, "token_type_embeddings.weight"@),
        seq![c.type_vocab_size, c.hidden_size],
    )
    &&& norm_complete(m, joined(p, "LayerNorm"@), c.hidden_size)
}

/// `e` names a tensor of the embeddings component rooted at `p` that is not
/// stored with its required shape.
pub open spec fn emb_missing(
    m: Map<Seq<char>, Seq<usize>>,
    p: Seq<char>,
    c: Config,
    e: ModelError,
) -> bool {
    ||| (e matches ModelError::Weight { name, .. } && {
        ||| (name@ == joined(p, "word_embeddings.weight"@) && !m.contains_pair(
            joined(p, "word_embeddings.weight"@),
            seq![c.vocab_size, c.hidden_size],
        ))
        ||| (name@ == joined(p, "position_embeddings.weight"@) && !m.contains_pair(
            joined(p, "position_embeddings.weight"@),
            seq![c.max_position_embeddings, c.hidden_size],
        ))
        ||| (name@ == joined(p, "token_type_embeddings.weight"@) && !m.contains_pair(
            joined(p, "token_type_embeddings.weight"@),
            seq![c.type_vocab_size, c.hidden_size],
        ))
    })
    ||| norm_missing(m, joined(p, "LayerNorm"@), c.hidden_size, e)
}

/// The position ids `0, 1, .., n-1`.
pub open spec fn position_range(n: nat) -> Seq<u32> {
    Seq::new(n, |i: int| i as u32)
}

impl Embeddings {
    /// Shape well-formedness: every table produces `hidden_size`-wide
    /// vectors and the normalization covers that width.
    pub open spec fn wf(self) -> bool {
        &&& emb_size(self.word_embeddings) == self.hidden_size
        &&& (self.position_embeddings matches Some(p) ==> emb_size(p) == self.hidden_size)
        &&& emb_size(self.token_type_embeddings) == self.hidden_size
        &&& self.layer_norm.wf()
        &&& self.layer_norm.dim() == self.hidden_size
    }

    /// The value `forward` computes: the word and segment lookups summed,
    /// the position lookup for `0..seq_len` added by broadcast, then layer
    /// normalization (dropout is the identity in inference).
    pub open spec fn forward_spec(
        self,
        input_ids: candle_core::Tensor,
        token_type_ids: candle_core::Tensor,
    ) -> candle_core::Tensor {
        let summed = add_of(
            emb_forward_of(self.word_embeddings, input_ids),
            emb_forward_of(self.token_type_embeddings, token_type_ids),
        );
        let combined = match self.position_embeddings {
            Some(pos) => broadcast_add_of(
                summed,
                emb_forward_of(
                    pos,
                    u32_tensor_of(
                        position_range(dims_of(input_ids)[1] as nat),
                        device_of(input_ids),
                    ),
                ),
            ),
            None => summed,
        };
        self.layer_norm.forward_spec(combined)
    }

    /// Constructs the embeddings from the word, position and segment tables
    /// rooted at `prefix`, with their normalization.
    pub fn load(ws: &WeightSource, prefix: &str, config: &Config) -> (r: Result<
        Embeddings,
        ModelError,
    >)
        ensures
            r is Ok <==> emb_complete(tensors_of(*ws), prefix@, *config),
            r is Ok ==> r->Ok_0.wf() && r->Ok_0.hidden_size == config.hidden_size
                && r->Ok_0.layer_norm.eps == scalar_of(config.layer_norm_eps.bits),
            r is Err ==> emb_missing(tensors_of(*ws), prefix@, *config, r->Err_0),
    {
        let h = config.hidden_size;
        let w_dims = vec![config.vocab_size, h];
        let p_dims = vec![config.max_position_embeddings, h];
        let t_dims = vec![config.type_vocab_size, h];
        proof {
            assert(w_dims@ =~= seq![config.vocab_size, h]);
            assert(p_dims@ =~= seq![config.max_position_embeddings, h]);
            assert(t_dims@ =~= seq![config.type_vocab_size, h]);
        }
        let word = get_weight(ws, join(prefix, "word_embeddings.weight"), w_dims)?;
        let pos = get_weight(ws, join(prefix, "position_embeddings.weight"), p_dims)?;
        let tt = get_weight(ws, join(prefix, "token_type_embeddings.weight"), t_dims)?;
        let norm_prefix = join(prefix, "LayerNorm");
        let layer_norm = LayerNorm::load(ws, norm_prefix.as_str(), h, config.layer_norm_eps)?;
        Ok(
            Embeddings {
                word_embeddings: emb_new(word, h),
                position_embeddings: Some(emb_new(pos, h)),
                token_type_embeddings: emb_new(tt, h),
                layer_norm,
                hidden_size: h,
                dropout_prob: config.hidden_dropout_prob,
            },
        )
    }

    /// Looks both id tensors up, sums the results, adds absolute position
    /// embeddings for positions `0..seq_len` by broadcast, normalizes, and
    /// applies inference-mode dropout. The output shape appends
    /// `hidden_size` to the `[batch, seq_len]` input shape.
    pub fn forward(&self, input_ids: &candle_core::Tensor, token_type_ids: &candle_core::Tensor) -> (r:
        Result<candle_core::Tensor, ModelError>)
        requires
            self.wf(),
        ensures
            r is Ok ==> dims_of(*input_ids).len() == 2 && dims_of(r->Ok_0) == dims_of(
                *input_ids,
            ).push(self.hidden_size),
            r is Ok ==> r->Ok_0 == self.forward_spec(*input_ids, *token_type_ids),
            r is Err ==> r->Err_0 is Tensor,
    {
        let ghost idims = dims_of(*input_ids);
        let (_bsize, seq_len) = lift(dims2(input_ids))?;
        let word = lift(emb_forward(&self.word_embeddings, input_ids))?;
        let tt = lift(emb_forward(&self.token_type_embeddings, token_type_ids))?;
        let mut embeddings = lift(tensor_add(&word, &tt))?;
        proof {
            assert(dims_of(embeddings) =~= idims.push(self.hidden_size));
        }
        if let Some(position_embeddings) = &self.position_embeddings {
            // Positions are the fixed range 0..seq_len, independent of the
            // ids and of padding: a known simplification of the absolute
            // position scheme, carried as designed.
            let mut position_ids: Vec<u32> = Vec::new();
            let mut i: usize = 0;
            while i < seq_len
                invariant
                    position_ids@ == position_range(i as nat),
                    i <= seq_len,
                decreases seq_len - i,
            {
                position_ids.push(i as u32);
                i = i + 1;
                proof {
                    assert(position_ids@ =~= position_range(i as nat));
                }
            }
            proof {
                assert(dims_of(*input_ids)[1] == seq_len);
            }
            let device = tensor_device(input_ids);
            let position_ids = lift(tensor_of_u32(&position_ids, &device))?;
            let position_emb = lift(emb_forward(position_embeddings, &position_ids))?;
            proof {
                let big = idims.push(self.hidden_size);
                let small = dims_of(position_emb);
                assert(small =~= seq![seq_len].push(self.hidden_size));
                assert(small[0] == big[1] && small[1] == big[2]);
                assert(broadcasts_to(small, big));
            }
            embeddings = lift(broadcast_add(&embeddings, &position_emb))?;
        }
        let embeddings = self.layer_norm.forward(&embeddings)?;
        Ok(dropout_inference(embeddings))
    }
}

} // verus!
