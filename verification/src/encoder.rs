//! The encoder: a fixed stack of layers applied in sequence.

use vstd::prelude::*;

pub mod layer;

use crate::backend::{dims_of, tensor_clone};
use crate::names::{join_layer, layer_prefix};
use crate::weights::{tensors_of, WeightSource};
use crate::{Config, ModelError};
use layer::{layer_complete, layer_missing, Layer};

verus! {

/// `num_hidden_layers` encoder layers; the output of layer `i` is the sole
/// input of layer `i + 1`. With zero layers the encoder is the identity.
pub struct Encoder {
    /// The stacked layers, in application order.
    pub layers: Vec<Layer>,
    /// Width of one feature vector.
    pub hidden_size: usize,
}

/// The layers applied in order, left to right: the value the encoder
/// computes on `x`.
pub open spec fn fold_spec(layers: Seq<Layer>, x: candle_core::Tensor) -> candle_core::Tensor
    decreases layers.len(),
{
    if layers.len() == 0 {
        x
    } else {
        fold_spec(layers.drop_first(), layers.first().forward_spec(x))
    }
}

/// Every tensor of every layer under `p` is stored with its required shape.
pub open spec fn enc_complete(m: Map<Seq<char>, Seq<usize>>, p: Seq<char>, c: Config) -> bool {
    forall|i: nat|
        i < c.num_hidden_layers ==> layer_complete(m, #[trigger] layer_prefix(p, i), c)
}

/// `e` names a tensor of some layer under `p` that is not stored with its
/// required shape.
pub open spec fn enc_missing(
    m: Map<Seq<char>, Seq<usize>>,
    p: Seq<char>,
    c: Config,
    e: ModelError,
) -> bool {
    exists|i: nat|
        i < c.num_hidden_layers && layer_missing(m, #[trigger] layer_prefix(p, i), c, e)
}

impl Encoder {
    /// Shape well-formedness: every layer, over one width.
    pub open spec fn wf(self) -> bool {
        forall|i: int|
            0 <= i < self.layers@.len() ==> (#[trigger] self.layers@[i]).wf()
                && self.layers@[i].hidden() == self.hidden_size
    }

    /// Loads `num_hidden_layers` layers rooted at `layer.<i>` under
    /// `prefix`, in order, stopping at the first layer that fails.
    pub fn load(ws: &WeightSource, prefix: &str, config: &Config) -> (r: Result<
        Encoder,
        ModelError,
    >)
        requires
            config.valid(),
        ensures
            r is Ok <==> enc_complete(tensors_of(*ws), prefix@, *config),
            r is Ok ==> r->Ok_0.wf() && r->Ok_0.hidden_size == config.hidden_size
                && r->Ok_0.layers@.len() == config.num_hidden_layers,
            r is Err ==> enc_missing(tensors_of(*ws), prefix@, *config, r->Err_0),
    {
        let n = config.num_hidden_layers;
        let mut layers: Vec<Layer> = Vec::new();
        let mut i: usize = 0;
        while i < n
            invariant
                i <= n,
                n == config.num_hidden_layers,
                config.valid(),
                layers@.len() == i,
                forall|j: nat|
                    j < i ==> layer_complete(
                        tensors_of(*ws),
                        #[trigger] layer_prefix(prefix@, j),
                        *config,
                    ),
                forall|j: int|
                    0 <= j < i ==> (#[trigger] layers@[j]).wf() && layers@[j].hidden()
                        == config.hidden_size,
            decreases n - i,
        {
            let name = join_layer(prefix, i);
            match Layer::load(ws, name.as_str(), config) {
                Ok(layer) => {
                    layers.push(layer);
                },
                Err(e) => {
                    proof {
                        assert(layer_missing(
                            tensors_of(*ws),
                            layer_prefix(prefix@, i as nat),
                            *config,
                            e,
                        ));
                        assert(enc_missing(tensors_of(*ws), prefix@, *config, e));
                    }
                    return Err(e);
                },
            }
            i = i + 1;
        }
        Ok(Encoder { layers, hidden_size: config.hidden_size })
    }

    /// Applies the layers in order. With zero layers the input tensor comes
    /// back unchanged; otherwise the innermost dimension becomes the
    /// encoder's width and the outer two are preserved, so an input whose
    /// innermost dimension already is that width keeps its shape exactly.
    pub fn forward(&self, hidden_states: &candle_core::Tensor) -> (r: Result<
        candle_core::Tensor,
        ModelError,
    >)
        requires
            self.wf(),
        ensures
            self.layers@.len() == 0 ==> r is Ok && r->Ok_0 == *hidden_states,
            r is Ok && self.layers@.len() > 0 ==> dims_of(*hidden_states).len() == 3 && dims_of(
                r->Ok_0,
            ) == dims_of(*hidden_states).update(2, self.hidden_size),
            r is Ok && dims_of(*hidden_states).len() == 3 && dims_of(*hidden_states)[2]
                == self.hidden_size ==> dims_of(r->Ok_0) == dims_of(*hidden_states),
            r is Ok ==> r->Ok_0 == fold_spec(self.layers@, *hidden_states),
            r is Err ==> r->Err_0 is Tensor,
    {
        let ghost d = dims_of(*hidden_states);
        let mut current = tensor_clone(hidden_states);
        let n = self.layers.len();
        let mut i: usize = 0;
        proof {
            assert(self.layers@.skip(0) =~= self.layers@);
        }
        while i < n
            invariant
                i <= n,
                n == self.layers@.len(),
                self.wf(),
                i == 0 ==> current == *hidden_states && d == dims_of(*hidden_states),
                i > 0 ==> d.len() == 3 && dims_of(current) == d.update(2, self.hidden_size),
                d == dims_of(*hidden_states),
                fold_spec(self.layers@.skip(i as int), current) == fold_spec(
                    self.layers@,
                    *hidden_states,
                ),
            decreases n - i,
        {
            let ghost before = current;
            let layer = &self.layers[i];
            current = layer.forward(&current)?;
            proof {
                if i > 0 {
                    assert(dims_of(current) =~= d.update(2, self.hidden_size));
                }
                let rest = self.layers@.skip(i as int);
                assert(rest.first() == self.layers@[i as int]);
                assert(rest.drop_first() =~= self.layers@.skip(i as int + 1));
                assert(fold_spec(rest, before) == fold_spec(
                    rest.drop_first(),
                    rest.first().forward_spec(before),
                ));
            }
            i = i + 1;
        }
        proof {
            assert(self.layers@.skip(n as int) =~= Seq::<Layer>::empty());
        }
        proof {
            if n > 0 && d.len() == 3 && d[2] == self.hidden_size {
                assert(d.update(2, self.hidden_size) =~= d);
            }
        }
        Ok(current)
    }
}

} // verus!
