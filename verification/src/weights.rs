//! The named-tensor provider: weights keyed by hierarchical dotted name.

use vstd::prelude::*;

use crate::backend::{dims_of, lin_new, linear_out};
use crate::names::joined;
use crate::ModelError;

verus! {

/// A provider of pretrained weight tensors, keyed by dotted name.
///
/// Built once from owned tensors; read-only afterwards. The verified core
/// sees it through [`tensors_of`]: the map from each stored name to the
/// shape of the tensor stored under it.
#[verifier::external_body]
pub struct WeightSource {
    vb: candle_nn::VarBuilder<'static>,
}

/// What a [`WeightSource`] holds: each stored dotted name, mapped to the
/// shape of its tensor.
pub uninterp spec fn tensors_of(w: WeightSource) -> Map<Seq<char>, Seq<usize>>;

/// The device a [`WeightSource`] loads tensors onto.
pub uninterp spec fn source_device_of(w: WeightSource) -> candle_core::Device;

impl WeightSource {
    /// Relies on `candle_nn::VarBuilder::from_tensors` over an owned map:
    /// the provider serves exactly the given tensors under the given names,
    /// converting each to 32-bit floats on demand.
    #[verifier::external_body]
    pub fn from_pairs(
        pairs: Vec<(String, candle_core::Tensor)>,
        device: &candle_core::Device,
    ) -> (r: WeightSource)
        requires
            forall|i: int, j: int|
                0 <= i < j < pairs@.len() ==> pairs@[i].0@ != pairs@[j].0@,
        ensures
            forall|i: int|
                0 <= i < pairs@.len() ==> #[trigger] tensors_of(r).contains_pair(
                    pairs@[i].0@,
                    dims_of(pairs@[i].1),
                ),
    {
        let map: std::collections::HashMap<String, candle_core::Tensor> =
            pairs.into_iter().collect();
        WeightSource {
            vb: candle_nn::VarBuilder::from_tensors(map, candle_core::DType::F32, device),
        }
    }

    /// Relies on `VarBuilder::get` over the owned-map backend: it returns a
    /// tensor exactly when `name` is stored with exactly the requested
    /// shape, and fails otherwise (absent name, or a shape mismatch).
    #[verifier::external_body]
    pub fn get(&self, name: &str, dims: &Vec<usize>) -> (r: Result<
        candle_core::Tensor,
        candle_core::Error,
    >)
        ensures
            r is Ok <==> tensors_of(*self).contains_pair(name@, dims@),
            r is Ok ==> dims_of(r->Ok_0) == dims@,
    {
        self.vb.get(dims.as_slice(), name)
    }

    /// Relies on `VarBuilder::device` (and `Device::clone`): the device the
    /// provider loads tensors onto.
    #[verifier::external_body]
    pub fn device(&self) -> (r: candle_core::Device)
        ensures
            r == source_device_of(*self),
    {
        self.vb.device().clone()
    }
}

/// Fetches one required tensor, wrapping a provider failure into
/// [`ModelError::Weight`] under the full dotted name.
pub fn get_weight(ws: &WeightSource, name: String, dims: Vec<usize>) -> (r: Result<
    candle_core::Tensor,
    ModelError,
>)
    ensures
        r is Ok <==> tensors_of(*ws).contains_pair(name@, dims@),
        r is Ok ==> dims_of(r->Ok_0) == dims@,
        r is Err ==> (r->Err_0 matches ModelError::Weight { name: n, .. } && n@ == name@),
{
    match ws.get(name.as_str(), &dims) {
        Ok(t) => Ok(t),
        Err(e) => Err(ModelError::Weight { name, source: e }),
    }
}

/// Both tensors of a dense (linear) sublayer rooted at `p` are stored:
/// `<p>.weight` of shape `[out_d, in_d]` and `<p>.bias` of shape `[out_d]`.
pub open spec fn linear_complete(
    m: Map<Seq<char>, Seq<usize>>,
    p: Seq<char>,
    in_d: usize,
    out_d: usize,
) -> bool {
    &&& m.contains_pair(joined(p, "weight"@), seq![out_d, in_d])
    &&& m.contains_pair(joined(p, "bias"@), seq![out_d])
}

/// `e` names a tensor of the dense sublayer rooted at `p` that is not
/// stored with its required shape.
pub open spec fn linear_missing(
    m: Map<Seq<char>, Seq<usize>>,
    p: Seq<char>,
    in_d: usize,
    out_d: usize,
    e: ModelError,
) -> bool {
    match e {
        ModelError::Weight { name, .. } => {
            ||| (name@ == joined(p, "weight"@) && !m.contains_pair(
                joined(p, "weight"@),
                seq![out_d, in_d],
            ))
            ||| (name@ == joined(p, "bias"@) && !m.contains_pair(joined(p, "bias"@), seq![out_d]))
        },
        _ => false,
    }
}

/// Loads the dense sublayer rooted at `prefix`: a weight of shape
/// `[out_d, in_d]` and a bias of shape `[out_d]`.
pub fn load_linear(ws: &WeightSource, prefix: &str, in_d: usize, out_d: usize) -> (r: Result<
    candle_nn::Linear,
    ModelError,
>)
    ensures
        r is Ok <==> linear_complete(tensors_of(*ws), prefix@, in_d, out_d),
        r is Ok ==> linear_out(r->Ok_0) == out_d,
        r is Err ==> linear_missing(tensors_of(*ws), prefix@, in_d, out_d, r->Err_0),
{
    let w_dims = vec![out_d, in_d];
    let b_dims = vec![out_d];
    proof {
        assert(w_dims@ =~= seq![out_d, in_d]);
        assert(b_dims@ =~= seq![out_d]);
    }
    let w = get_weight(ws, crate::names::join(prefix, "weight"), w_dims)?;
    let b = get_weight(ws, crate::names::join(prefix, "bias"), b_dims)?;
    Ok(lin_new(w, b))
}

} // verus!
