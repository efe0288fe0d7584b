//! End-to-end tests of the encoder core against the real tensor backend.

use candle_core::{Device, Tensor};
use electra::weights::WeightSource;
use electra::{Config, FloatBits, HiddenAct, Model, ModelError, Pooler, PositionEmbeddingType};

fn eps_bits() -> FloatBits {
    FloatBits { bits: (1e-12f64).to_bits() }
}

fn zero_bits() -> FloatBits {
    FloatBits { bits: (0.0f64).to_bits() }
}

fn test_config(hidden_act: HiddenAct, num_hidden_layers: usize) -> Config {
    Config {
        vocab_size: 30,
        hidden_size: 8,
        num_hidden_layers,
        num_attention_heads: 2,
        intermediate_size: 16,
        hidden_act,
        hidden_dropout_prob: zero_bits(),
        max_position_embeddings: 16,
        type_vocab_size: 2,
        layer_norm_eps: eps_bits(),
        pad_token_id: 0,
        position_embedding_type: PositionEmbeddingType::Absolute,
        classifier_dropout: None,
        model_type: None,
        num_labels: None,
    }
}

/// Deterministic small values, different per element and per tensor.
fn filled(shape: &[usize], salt: usize) -> Tensor {
    let count: usize = shape.iter().product();
    let data: Vec<f32> = (0..count)
        .map(|k| ((((k + salt) * 37 + 11) % 97) as f32 / 97.0 - 0.5) * 0.4)
        .collect();
    Tensor::from_vec(data, shape, &Device::Cpu).unwrap()
}

fn ones(shape: &[usize]) -> Tensor {
    Tensor::ones(shape, candle_core::DType::F32, &Device::Cpu).unwrap()
}

fn zeros(shape: &[usize]) -> Tensor {
    Tensor::zeros(shape, candle_core::DType::F32, &Device::Cpu).unwrap()
}

fn push_linear(pairs: &mut Vec<(String, Tensor)>, prefix: &str, in_d: usize, out_d: usize) {
    let salt = pairs.len() * 131;
    pairs.push((format!("{prefix}.weight"), filled(&[out_d, in_d], salt)));
    pairs.push((format!("{prefix}.bias"), filled(&[out_d], salt + 7)));
}

fn push_norm(pairs: &mut Vec<(String, Tensor)>, prefix: &str, dim: usize) {
    pairs.push((format!("{prefix}.weight"), ones(&[dim])));
    pairs.push((format!("{prefix}.bias"), zeros(&[dim])));
}

/// Every tensor the model requires, under `root` (empty for canonical).
fn full_weights(config: &Config, root: &str) -> Vec<(String, Tensor)> {
    let dot_root = if root.is_empty() { String::new() } else { format!("{root}.") };
    let h = config.hidden_size;
    let mut pairs: Vec<(String, Tensor)> = Vec::new();
    pairs.push((
        format!("{dot_root}embeddings.word_embeddings.weight"),
        filled(&[config.vocab_size, h], 3),
    ));
    pairs.push((
        format!("{dot_root}embeddings.position_embeddings.weight"),
        filled(&[config.max_position_embeddings, h], 5),
    ));
    pairs.push((
        format!("{dot_root}embeddings.token_type_embeddings.weight"),
        filled(&[config.type_vocab_size, h], 9),
    ));
    push_norm(&mut pairs, &format!("{dot_root}embeddings.LayerNorm"), h);
    for i in 0..config.num_hidden_layers {
        let layer = format!("{dot_root}encoder.layer.{i}");
        push_linear(&mut pairs, &format!("{layer}.attention.self.query"), h, h);
        push_linear(&mut pairs, &format!("{layer}.attention.self.key"), h, h);
        push_linear(&mut pairs, &format!("{layer}.attention.self.value"), h, h);
        push_linear(&mut pairs, &format!("{layer}.attention.output.dense"), h, h);
        push_norm(&mut pairs, &format!("{layer}.attention.output.LayerNorm"), h);
        push_linear(
            &mut pairs,
            &format!("{layer}.intermediate.dense"),
            h,
            config.intermediate_size,
        );
        push_linear(&mut pairs, &format!("{layer}.output.dense"), config.intermediate_size, h);
        push_norm(&mut pairs, &format!("{layer}.output.LayerNorm"), h);
    }
    pairs
}

fn source_of(pairs: Vec<(String, Tensor)>) -> WeightSource {
    WeightSource::from_pairs(pairs, &Device::Cpu)
}

fn ids(rows: &[&[u32]]) -> Tensor {
    let data: Vec<u32> = rows.iter().flat_map(|r| r.iter().copied()).collect();
    Tensor::from_vec(data, &[rows.len(), rows[0].len()], &Device::Cpu).unwrap()
}

#[test]
fn invalid_head_split_is_a_configuration_error() {
    let mut config = test_config(HiddenAct::Gelu, 1);
    config.num_attention_heads = 3;
    let ws = source_of(full_weights(&config, ""));
    let err = Model::load(&ws, &config).err().expect("load must fail");
    assert!(matches!(err, ModelError::Configuration));

    let mut zero_heads = test_config(HiddenAct::Gelu, 1);
    zero_heads.num_attention_heads = 0;
    let err = Model::load(&ws, &zero_heads).err().expect("load must fail");
    assert!(matches!(err, ModelError::Configuration));
}

#[test]
fn valid_config_loads() {
    let config = test_config(HiddenAct::Gelu, 1);
    let ws = source_of(full_weights(&config, ""));
    assert!(Model::load(&ws, &config).is_ok());
}

#[test]
fn embeddings_output_shape() {
    let config = test_config(HiddenAct::Gelu, 0);
    let ws = source_of(full_weights(&config, ""));
    let embeddings =
        electra::embeddings::Embeddings::load(&ws, "embeddings", &config).unwrap();
    let input_ids = ids(&[&[1, 2, 3, 0, 5], &[4, 4, 0, 0, 0]]);
    let type_ids = ids(&[&[0, 0, 1, 1, 1], &[0, 0, 0, 0, 0]]);
    let out = embeddings.forward(&input_ids, &type_ids).unwrap();
    assert_eq!(out.dims(), &[2, 5, 8]);
}

#[test]
fn layer_norm_standardizes_each_feature_vector() {
    let mut pairs: Vec<(String, Tensor)> = Vec::new();
    push_norm(&mut pairs, "ln", 4);
    let ws = source_of(pairs);
    let norm = electra::norm::LayerNorm::load(&ws, "ln", 4, eps_bits()).unwrap();
    let x = Tensor::from_vec(
        vec![1.0f32, 2.0, 3.0, 4.0, -1.0, 0.0, 1.0, 10.0],
        &[2, 4],
        &Device::Cpu,
    )
    .unwrap();
    let out = norm.forward(&x).unwrap();
    assert_eq!(out.dims(), &[2, 4]);
    for row in out.to_vec2::<f32>().unwrap() {
        let mean: f32 = row.iter().sum::<f32>() / 4.0;
        let var: f32 = row.iter().map(|v| (v - mean) * (v - mean)).sum::<f32>() / 4.0;
        assert!(mean.abs() < 1e-5, "mean {mean} not near 0");
        assert!((var - 1.0).abs() < 1e-3, "variance {var} not near 1");
    }
}

#[test]
fn zero_layer_encoder_is_the_identity() {
    let config = test_config(HiddenAct::Gelu, 0);
    let ws = source_of(full_weights(&config, ""));
    let encoder = electra::encoder::Encoder::load(&ws, "encoder", &config).unwrap();
    let x = filled(&[2, 3, 8], 42);
    let out = encoder.forward(&x).unwrap();
    assert_eq!(out.to_vec3::<f32>().unwrap(), x.to_vec3::<f32>().unwrap());
}

#[test]
fn encoder_preserves_the_embedding_shape() {
    let config = test_config(HiddenAct::Gelu, 2);
    let ws = source_of(full_weights(&config, ""));
    let encoder = electra::encoder::Encoder::load(&ws, "encoder", &config).unwrap();
    let x = filled(&[2, 4, 8], 17);
    let out = encoder.forward(&x).unwrap();
    assert_eq!(out.dims(), x.dims());
}

#[test]
fn pooler_applies_tanh_even_when_relu_is_configured() {
    let config = test_config(HiddenAct::Relu, 0);
    let mut pairs: Vec<(String, Tensor)> = Vec::new();
    push_linear(&mut pairs, "pooler.dense", 8, 8);
    let weight = pairs[0].1.clone();
    let bias = pairs[1].1.clone();
    let ws = source_of(pairs);
    let pooler = Pooler::load(&ws, "pooler", &config).unwrap();
    let hs = filled(&[1, 3, 8], 23);
    let pooled = pooler.forward(&hs).unwrap().to_vec2::<f32>().unwrap();

    // Reference: tanh of the dense projection of the first-token slice,
    // computed with raw backend calls.
    let first = hs.narrow(1, 0, 1).unwrap().squeeze(1).unwrap();
    let expected = first
        .matmul(&weight.t().unwrap())
        .unwrap()
        .broadcast_add(&bias)
        .unwrap()
        .tanh()
        .unwrap()
        .to_vec2::<f32>()
        .unwrap();
    let mut saw_negative = false;
    for (prow, erow) in pooled.iter().zip(expected.iter()) {
        for (p, e) in prow.iter().zip(erow.iter()) {
            assert!((p - e).abs() < 1e-5, "pooled {p} != tanh reference {e}");
            if *p < 0.0 {
                saw_negative = true;
            }
        }
    }
    // ReLU would have clamped these; tanh keeps them negative.
    assert!(saw_negative, "expected at least one negative pooled value");
}

#[test]
fn forward_is_deterministic_for_equal_inputs() {
    let config = test_config(HiddenAct::Gelu, 2);
    let ws = source_of(full_weights(&config, ""));
    let model = Model::load(&ws, &config).unwrap();
    let input_ids = ids(&[&[1, 2, 3, 0]]);
    let type_ids = ids(&[&[0, 0, 0, 0]]);
    let (first, second) = electra::forward_twice(&model, &input_ids, &type_ids);
    let a = first.unwrap().to_vec3::<f32>().unwrap();
    let b = second.unwrap().to_vec3::<f32>().unwrap();
    assert_eq!(a, b);
}

#[test]
fn end_to_end_scenario() {
    let config = test_config(HiddenAct::Gelu, 2);
    let ws = source_of(full_weights(&config, ""));
    let model = Model::load(&ws, &config).unwrap();
    let input_ids = ids(&[&[1, 2, 3, 0]]);
    let type_ids = ids(&[&[0, 0, 0, 0]]);
    let out = model.forward(&input_ids, &type_ids).unwrap();
    assert_eq!(out.dims(), &[1, 4, 8]);
    for row in out.to_vec3::<f32>().unwrap().concat().concat() {
        assert!(row.is_finite(), "non-finite output value {row}");
    }
}

#[test]
fn missing_canonical_weights_fall_back_to_the_model_type_prefix() {
    let mut config = test_config(HiddenAct::Gelu, 1);
    config.model_type = Some("electra".to_string());
    // The canonical `encoder.layer.0.attention.self.query.weight` (and every
    // other canonical name) is absent; everything lives under `electra.`.
    let ws = source_of(full_weights(&config, "electra"));
    let model = Model::load(&ws, &config).unwrap();
    let input_ids = ids(&[&[1, 2]]);
    let type_ids = ids(&[&[0, 0]]);
    assert_eq!(model.forward(&input_ids, &type_ids).unwrap().dims(), &[1, 2, 8]);
}

#[test]
fn missing_weight_under_both_roots_surfaces_the_canonical_error() {
    let mut config = test_config(HiddenAct::Gelu, 1);
    config.model_type = Some("electra".to_string());
    let gone = "encoder.layer.0.attention.self.query.weight";
    let mut pairs = full_weights(&config, "");
    pairs.extend(full_weights(&config, "electra"));
    pairs.retain(|(name, _)| name != gone && name != &format!("electra.{gone}"));
    let ws = source_of(pairs);
    let err = Model::load(&ws, &config).err().expect("load must fail");
    match err {
        ModelError::Weight { name, .. } => assert_eq!(name, gone),
        other => panic!("expected a weight error, got {other:?}"),
    }
}

#[test]
fn wrong_input_rank_is_a_tensor_error() {
    let config = test_config(HiddenAct::Gelu, 1);
    let ws = source_of(full_weights(&config, ""));
    let model = Model::load(&ws, &config).unwrap();
    let flat = Tensor::from_vec(vec![1u32, 2, 3], &[3], &Device::Cpu).unwrap();
    let err = model.forward(&flat, &flat).err().expect("forward must fail");
    assert!(matches!(err, ModelError::Tensor(_)));
}

#[test]
fn embeddings_match_a_reference_computation() {
    let mut config = test_config(HiddenAct::Gelu, 0);
    config.vocab_size = 3;
    config.hidden_size = 4;
    config.num_attention_heads = 1;
    config.max_position_embeddings = 4;
    let pairs = full_weights(&config, "");
    let word = pairs[0].1.clone();
    let pos = pairs[1].1.clone();
    let tt = pairs[2].1.clone();
    let ws = source_of(pairs);
    let embeddings =
        electra::embeddings::Embeddings::load(&ws, "embeddings", &config).unwrap();
    let input_ids = ids(&[&[0, 2]]);
    let type_ids = ids(&[&[1, 0]]);
    let out = embeddings.forward(&input_ids, &type_ids).unwrap().to_vec3::<f32>().unwrap();

    // Reference: LayerNorm(word[id] + type[tid] + pos[position]) with unit
    // weight and zero bias, computed with raw backend calls.
    let word = word.to_vec2::<f32>().unwrap();
    let pos = pos.to_vec2::<f32>().unwrap();
    let tt = tt.to_vec2::<f32>().unwrap();
    let lookups = [(0usize, 1usize, 0usize), (2, 0, 1)];
    for (slot, (id, tid, position)) in lookups.iter().enumerate() {
        let summed: Vec<f32> =
            (0..4).map(|k| word[*id][k] + tt[*tid][k] + pos[*position][k]).collect();
        let mean: f32 = summed.iter().sum::<f32>() / 4.0;
        let var: f32 = summed.iter().map(|v| (v - mean) * (v - mean)).sum::<f32>() / 4.0;
        let denom = (var + 1e-12).sqrt();
        for k in 0..4 {
            let expected = (summed[k] - mean) / denom;
            let got = out[0][slot][k];
            assert!((got - expected).abs() < 1e-4, "embedding {got} != reference {expected}");
        }
    }
}

#[test]
fn activations_are_the_advertised_transforms() {
    let x = Tensor::from_vec(vec![-1.0f32, 0.0, 1.0], &[3], &Device::Cpu).unwrap();
    let relu = electra::HiddenActLayer::new(HiddenAct::Relu);
    assert_eq!(relu.forward(&x).unwrap().to_vec1::<f32>().unwrap(), vec![0.0, 0.0, 1.0]);
    let tanh = electra::HiddenActLayer::new(HiddenAct::Tanh);
    let t = tanh.forward(&x).unwrap().to_vec1::<f32>().unwrap();
    assert!((t[0] - (-1.0f32).tanh()).abs() < 1e-6);
    assert!((t[2] - 1.0f32.tanh()).abs() < 1e-6);
    let gelu = electra::HiddenActLayer::new(HiddenAct::Gelu);
    let g = gelu.forward(&x).unwrap().to_vec1::<f32>().unwrap();
    // Exact, erf-based GELU values, not the tanh approximation.
    assert!((g[0] - (-0.158_655_26f32)).abs() < 1e-5);
    assert!(g[1].abs() < 1e-7);
    assert!((g[2] - 0.841_344_7f32).abs() < 1e-5);
}

#[test]
fn out_of_vocabulary_token_id_is_a_tensor_error() {
    let config = test_config(HiddenAct::Gelu, 1);
    let ws = source_of(full_weights(&config, ""));
    let model = Model::load(&ws, &config).unwrap();
    let input_ids = ids(&[&[1, 99]]); // vocab_size is 30
    let type_ids = ids(&[&[0, 0]]);
    let err = model.forward(&input_ids, &type_ids).err().expect("forward must fail");
    assert!(matches!(err, ModelError::Tensor(_)));
}
