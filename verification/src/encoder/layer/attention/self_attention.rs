//! Multi-head scaled dot-product self-attention.

use vstd::prelude::*;

use crate::backend::{
    broadcast_div, broadcast_div_of, broadcasts_to, contiguous, contiguous_of, dims3, dims_of,
    lin_forward, lin_forward_of, linear_out, matmul, matmul_of, reshape_of, reshape_to, softmax,
    softmax_of, sqrt_scalar, sqrt_scalar_of, transpose, transpose_of,
};
use crate::names::{join, joined};
use crate::weights::{linear_complete, linear_missing, load_linear, tensors_of, WeightSource};
use crate::{dropout_inference, lift, Config, ModelError};

verus! {

/// Projects the hidden states into per-head query, key and value spaces,
/// attends every position to every other (bidirectional, no mask — padded
/// positions attend freely, a known limitation carried as designed), and
/// merges the heads back.
pub struct SelfAttention {
    /// Query projection, `hidden_size -> hidden_size`.
    pub query: candle_nn::Linear,
    /// Key projection, `hidden_size -> hidden_size`.
    pub key: candle_nn::Linear,
    /// Value projection, `hidden_size -> hidden_size`.
    pub value: candle_nn::Linear,
    /// Number of parallel attention heads.
    pub num_attention_heads: usize,
    /// Width of one head: `hidden_size / num_attention_heads`.
    pub attention_head_size: usize,
    /// Width of the merged representation.
    pub hidden_size: usize,
}

/// Every tensor of the self-attention sublayer rooted at `p` is stored with
/// its required shape.
pub open spec fn self_attn_complete(
    m: Map<Seq<char>, Seq<usize>>,
    p: Seq<char>,
    c: Config,
) -> bool {
    &&& linear_complete(m, joined(p, "query"@), c.hidden_size, c.hidden_size)
    &&& linear_complete(m, joined(p, "key"@), c.hidden_size, c.hidden_size)
    &&& linear_complete(m, joined(p, "value"@), c.hidden_size, c.hidden_size)
}

/// `e` names a tensor of the self-attention sublayer rooted at `p` that is
/// not stored with its required shape.
pub open spec fn self_attn_missing(
    m: Map<Seq<char>, Seq<usize>>,
    p: Seq<char>,
    c: Config,
    e: ModelError,
) -> bool {
    ||| linear_missing(m, joined(p, "query"@), c.hidden_size, c.hidden_size, e)
    ||| linear_missing(m, joined(p, "key"@), c.hidden_size, c.hidden_size, e)
    ||| linear_missing(m, joined(p, "value"@), c.hidden_size, c.hidden_size, e)
}

impl SelfAttention {
    /// Shape well-formedness: all three projections produce
    /// `hidden_size`-wide vectors, and the heads tile that width exactly.
    pub open spec fn wf(self) -> bool {
        &&& linear_out(self.query) == self.hidden_size
        &&& linear_out(self.key) == self.hidden_size
        &&& linear_out(self.value) == self.hidden_size
        &&& self.num_attention_heads > 0
    }

    /// The value of one head split: reshape into
    /// `[batch, seq_len, heads, head_size]`, swap the middle dimensions,
    /// make contiguous.
    pub open spec fn split_spec(
        self,
        t: candle_core::Tensor,
        bsize: usize,
        seq_len: usize,
    ) -> candle_core::Tensor {
        contiguous_of(
            transpose_of(
                reshape_of(
                    t,
                    seq![bsize, seq_len, self.num_attention_heads, self.attention_head_size],
                ),
                1,
                2,
            ),
        )
    }

    /// The value `forward` computes on a `[batch, seq_len, width]` input:
    /// scaled dot-product attention over the split projections, heads
    /// merged back (dropout is the identity in inference).
    pub open spec fn forward_spec(self, x: candle_core::Tensor) -> candle_core::Tensor {
        let bsize = dims_of(x)[0];
        let seq_len = dims_of(x)[1];
        let q = self.split_spec(lin_forward_of(self.query, x), bsize, seq_len);
        let k = self.split_spec(lin_forward_of(self.key, x), bsize, seq_len);
        let v = self.split_spec(lin_forward_of(self.value, x), bsize, seq_len);
        let scores = broadcast_div_of(
            matmul_of(q, contiguous_of(transpose_of(k, 2, 3))),
            sqrt_scalar_of(self.attention_head_size as u32),
        );
        let context = matmul_of(softmax_of(scores, 3), v);
        reshape_of(
            contiguous_of(transpose_of(context, 1, 2)),
            seq![bsize, seq_len, self.hidden_size],
        )
    }

    /// Loads the query, key and value projections rooted at `prefix`.
    pub fn load(ws: &WeightSource, prefix: &str, config: &Config) -> (r: Result<
        SelfAttention,
        ModelError,
    >)
        requires
            config.valid(),
        ensures
            r is Ok <==> self_attn_complete(tensors_of(*ws), prefix@, *config),
            r is Ok ==> r->Ok_0.wf() && r->Ok_0.hidden_size == config.hidden_size,
            r is Err ==> self_attn_missing(tensors_of(*ws), prefix@, *config, r->Err_0),
    {
        let h = config.hidden_size;
        let q_prefix = join(prefix, "query");
        let k_prefix = join(prefix, "key");
        let v_prefix = join(prefix, "value");
        let query = load_linear(ws, q_prefix.as_str(), h, h)?;
        let key = load_linear(ws, k_prefix.as_str(), h, h)?;
        let value = load_linear(ws, v_prefix.as_str(), h, h)?;
        Ok(
            SelfAttention {
                query,
                key,
                value,
                num_attention_heads: config.num_attention_heads,
                attention_head_size: config.head_dim(),
                hidden_size: h,
            },
        )
    }

    /// Splits a `[batch, seq_len, hidden_size]` projection into
    /// `[batch, num_heads, seq_len, head_size]`.
    fn split_heads(&self, t: &candle_core::Tensor, bsize: usize, seq_len: usize) -> (r: Result<
        candle_core::Tensor,
        ModelError,
    >)
        ensures
            r is Ok ==> dims_of(r->Ok_0) == seq![
                bsize,
                self.num_attention_heads,
                seq_len,
                self.attention_head_size,
            ],
            r is Ok ==> r->Ok_0 == self.split_spec(*t, bsize, seq_len),
            r is Err ==> r->Err_0 is Tensor,
    {
        let shape = vec![bsize, seq_len, self.num_attention_heads, self.attention_head_size];
        proof {
            assert(shape@ =~= seq![
                bsize,
                seq_len,
                self.num_attention_heads,
                self.attention_head_size,
            ]);
        }
        let t = lift(reshape_to(t, &shape))?;
        let t = lift(transpose(&t, 1, 2))?;
        proof {
            assert(dims_of(t) =~= seq![
                bsize,
                self.num_attention_heads,
                seq_len,
                self.attention_head_size,
            ]);
        }
        lift(contiguous(&t))
    }

    /// Scaled dot-product attention over all positions: scores
    /// `q @ k^T / sqrt(head_size)`, softmax over the last axis,
    /// inference-mode dropout, weighted sum with the values, heads merged
    /// back. The innermost dimension becomes `hidden_size`; the outer two
    /// are preserved.
    pub fn forward(&self, hidden_states: &candle_core::Tensor) -> (r: Result<
        candle_core::Tensor,
        ModelError,
    >)
        requires
            self.wf(),
        ensures
            r is Ok ==> dims_of(*hidden_states).len() == 3 && dims_of(r->Ok_0) == dims_of(
                *hidden_states,
            ).update(2, self.hidden_size),
            r is Ok ==> r->Ok_0 == self.forward_spec(*hidden_states),
            r is Err ==> r->Err_0 is Tensor,
    {
        let ghost d = dims_of(*hidden_states);
        let (bsize, seq_len, _width) = lift(dims3(hidden_states))?;
        let q = lift(lin_forward(&self.query, hidden_states))?;
        let k = lift(lin_forward(&self.key, hidden_states))?;
        let v = lift(lin_forward(&self.value, hidden_states))?;
        let q = self.split_heads(&q, bsize, seq_len)?;
        let k = self.split_heads(&k, bsize, seq_len)?;
        let v = self.split_heads(&v, bsize, seq_len)?;
        let k_t = lift(contiguous(&lift(transpose(&k, 2, 3))?))?;
        proof {
            assert(dims_of(k_t) =~= seq![
                bsize,
                self.num_attention_heads,
                self.attention_head_size,
                seq_len,
            ]);
        }
        let scores = lift(matmul(&q, &k_t))?;
        proof {
            assert(dims_of(scores) =~= seq![bsize, self.num_attention_heads, seq_len, seq_len]);
        }
        let scale = sqrt_scalar(self.attention_head_size as u32);
        proof {
            assert(broadcasts_to(dims_of(scale), dims_of(scores)));
        }
        let scores = lift(broadcast_div(&scores, &scale))?;
        let probs = dropout_inference(lift(softmax(&scores, 3))?);
        let context = lift(matmul(&probs, &v))?;
        proof {
            assert(dims_of(context) =~= seq![
                bsize,
                self.num_attention_heads,
                seq_len,
                self.attention_head_size,
            ]);
        }
        let context = lift(contiguous(&lift(transpose(&context, 1, 2))?))?;
        let merged_shape = vec![bsize, seq_len, self.hidden_size];
        proof {
            assert(merged_shape@ =~= seq![bsize, seq_len, self.hidden_size]);
        }
        let merged = lift(reshape_to(&context, &merged_shape))?;
        proof {
            assert(dims_of(merged) =~= d.update(2, self.hidden_size));
        }
        Ok(merged)
    }
}

} // verus!
