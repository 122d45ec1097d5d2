use model_merge::inspect::{classify_tensor, extract_layer_index, tensor_component, TensorComponent};
use model_merge::model::{derive_layer_count, TensorInfo};

#[test]
fn tensors_are_classified_by_name() {
    assert_eq!(classify_tensor("token_embd.weight"), "embedding");
    assert_eq!(classify_tensor("model.embed_tokens.weight"), "embedding");
    assert_eq!(classify_tensor("output.weight"), "output");
    assert_eq!(classify_tensor("lm_head.weight"), "output");
    assert_eq!(classify_tensor("output_norm.weight"), "output");
    assert_eq!(classify_tensor("blk.3.attn_q.weight"), "attention");
    assert_eq!(classify_tensor("model.layers.0.self_attn.o_proj.weight"), "attention");
    assert_eq!(classify_tensor("blk.0.attn_output.weight"), "attention");
    assert_eq!(classify_tensor("model.layers.1.input_layernorm.weight"), "norm");
    assert_eq!(classify_tensor("blk.2.ffn_norm.weight"), "norm");
    assert_eq!(classify_tensor("blk.2.ffn_gate.weight"), "mlp");
    assert_eq!(classify_tensor("model.layers.7.mlp.up_proj.weight"), "mlp");
    assert_eq!(classify_tensor("rope_freqs.weight"), "other");
}

#[test]
fn classification_ignores_case() {
    assert_eq!(classify_tensor("Model.Layers.0.Self_Attn.Q_PROJ.weight"), "attention");
    assert_eq!(tensor_component("BLK.0.FFN_UP.weight"), TensorComponent::Mlp);
    assert_eq!(TensorComponent::Norm.label(), "norm");
}

#[test]
fn layer_index_follows_a_marker() {
    assert_eq!(extract_layer_index("blk.12.attn_q.weight"), Some(12));
    assert_eq!(extract_layer_index("model.layers.3.mlp.up_proj.weight"), Some(3));
    assert_eq!(extract_layer_index("transformer.h.7.attn.c_attn.weight"), Some(7));
    assert_eq!(extract_layer_index("encoder.layer.5"), Some(5));
    assert_eq!(extract_layer_index("blocks.+4.x"), Some(4));
    assert_eq!(extract_layer_index("token_embd.weight"), None);
    assert_eq!(extract_layer_index("blk.x.attn"), None);
    assert_eq!(extract_layer_index("blk..attn"), None);
    assert_eq!(extract_layer_index("layers.99999999999999999999.w"), None);
    assert_eq!(extract_layer_index("layers.18446744073709551615.w"), Some(u64::MAX));
    // The first marker that is followed by a number decides.
    assert_eq!(extract_layer_index("layers.a.blk.2.w"), Some(2));
    assert_eq!(extract_layer_index("layers.1.blk.2.w"), Some(2));
}

#[test]
fn layer_index_agrees_with_the_standard_parser() {
    for text in ["0", "007", "+5", "-5", "", "+", "12a", "18446744073709551615", "18446744073709551616", " 1"] {
        let name = format!("blk.{}.w", text);
        assert_eq!(extract_layer_index(&name), text.parse::<u64>().ok(), "for {:?}", text);
    }
}

fn named(name: &str) -> TensorInfo {
    TensorInfo { name: name.to_string(), dtype: "F32".to_string(), shape: vec![1] }
}

#[test]
fn layers_are_counted_once() {
    let tensors = vec![
        named("blk.0.attn_q.weight"),
        named("blk.0.attn_k.weight"),
        named("blk.1.attn_q.weight"),
        named("model.layers.1.mlp.weight"),
        named("model.layers.5.mlp.weight"),
        named("output.weight"),
        named("blk.9"),
    ];
    assert_eq!(derive_layer_count(&tensors), Some(3));
    assert_eq!(derive_layer_count(&[named("output.weight")]), None);
    assert_eq!(derive_layer_count(&[]), None);
}
