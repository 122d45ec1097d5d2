use model_merge::model::{ModelFormat, ModelInfo, TensorInfo};
use model_merge::registry::ParentRegistry;
use model_merge::summary::{merge_compare_tensors, merge_get_layer_components, merge_get_parents, ParentModelInfo};

fn model(name: &str, format: ModelFormat, layers: Option<u64>, names: &[&str]) -> ModelInfo {
    ModelInfo {
        file_name: name.to_string(),
        file_path: format!("/weights/{}", name),
        file_size: 2048,
        file_size_display: "2.00 KB".to_string(),
        format,
        tensor_count: names.len() as u64,
        parameter_count: 7_000_000,
        parameter_count_display: "7.00M".to_string(),
        layer_count: layers,
        quantization: Some("Q4_0".to_string()),
        architecture: None,
        context_length: None,
        embedding_size: None,
        metadata: vec![],
        tensor_preview: vec![],
        all_tensors: names
            .iter()
            .map(|n| TensorInfo { name: n.to_string(), dtype: "F16".into(), shape: vec![2, 2] })
            .collect(),
        shard_count: None,
        has_tokenizer: None,
        has_config: None,
        model_type: None,
        vocab_size: None,
    }
}

#[test]
fn brief_record_repeats_the_parent() {
    let mut reg = ParentRegistry::new();
    let p = reg.add(model("a.gguf", ModelFormat::Gguf, Some(3), &["x", "y"]), 2, false).unwrap();
    let brief = ParentModelInfo::from(&p);
    assert_eq!(brief.id, p.id);
    assert_eq!(brief.slot, 2);
    assert_eq!(brief.name, "a.gguf");
    assert_eq!(brief.file_path, "/weights/a.gguf");
    assert_eq!(brief.format, "gguf");
    assert_eq!(brief.file_size, 2048);
    assert_eq!(brief.file_size_display, "2.00 KB");
    assert_eq!(brief.parameter_count, 7_000_000);
    assert_eq!(brief.parameter_count_display, "7.00M");
    assert_eq!(brief.layer_count, Some(3));
    assert_eq!(brief.architecture, None);
    assert_eq!(brief.quantization, Some("Q4_0".to_string()));
    assert_eq!(brief.color, p.color);
    assert_eq!(brief.tensor_count, 2);
}

#[test]
fn brief_records_follow_the_registry_order() {
    let mut reg = ParentRegistry::new();
    assert!(merge_get_parents(&reg).is_empty());
    reg.add(model("b.safetensors", ModelFormat::SafeTensors, None, &[]), 4, false).unwrap();
    reg.add(model("a.gguf", ModelFormat::Gguf, None, &["x"]), 0, false).unwrap();
    let brief = merge_get_parents(&reg);
    let listed: Vec<(usize, &str, &str)> =
        brief.iter().map(|b| (b.slot, b.name.as_str(), b.format.as_str())).collect();
    let held: Vec<usize> = reg.all().iter().map(|p| p.slot).collect();
    assert_eq!(listed.iter().map(|l| l.0).collect::<Vec<_>>(), held);
    assert!(listed.contains(&(4, "b.safetensors", "safe_tensors")));
    assert!(listed.contains(&(0, "a.gguf", "gguf")));
}

#[test]
fn layers_list_their_tensors_by_component() {
    let mut reg = ParentRegistry::new();
    let p = reg
        .add(
            model(
                "m",
                ModelFormat::SafeTensors,
                Some(2),
                &[
                    "model.embed_tokens.weight",
                    "model.layers.0.self_attn.q_proj.weight",
                    "model.layers.0.mlp.up_proj.weight",
                    "model.layers.1.input_layernorm.weight",
                    "model.layers.0.self_attn.k_proj.weight",
                    "model.layers.1.rotary.inv_freq",
                    "model.layers.2.mlp.down_proj.weight",
                ],
            ),
            0,
            false,
        )
        .unwrap();
    let layers = merge_get_layer_components(&p);
    assert_eq!(layers.len(), 2);
    assert_eq!(layers[0].layer_index, 0);
    assert_eq!(
        layers[0].attention_tensors,
        vec![
            "model.layers.0.self_attn.q_proj.weight".to_string(),
            "model.layers.0.self_attn.k_proj.weight".to_string(),
        ]
    );
    assert_eq!(layers[0].mlp_tensors, vec!["model.layers.0.mlp.up_proj.weight".to_string()]);
    assert!(layers[0].norm_tensors.is_empty());
    assert!(layers[0].other_tensors.is_empty());
    assert_eq!(layers[0].total_params, 0);
    assert_eq!(layers[1].layer_index, 1);
    assert!(layers[1].attention_tensors.is_empty());
    assert!(layers[1].mlp_tensors.is_empty());
    assert_eq!(layers[1].norm_tensors, vec!["model.layers.1.input_layernorm.weight".to_string()]);
    assert_eq!(layers[1].other_tensors, vec!["model.layers.1.rotary.inv_freq".to_string()]);
}

#[test]
fn unknown_layer_count_gives_no_layers() {
    let mut reg = ParentRegistry::new();
    let p = reg
        .add(model("m", ModelFormat::Gguf, None, &["misc.weight"]), 0, false)
        .unwrap();
    assert!(merge_get_layer_components(&p).is_empty());
}

#[test]
fn comparison_of_an_empty_registry_is_empty() {
    let reg = ParentRegistry::new();
    let c = merge_compare_tensors(&reg);
    assert!(c.entries.is_empty());
    assert_eq!((c.shared_count, c.unique_count), (0, 0));
}

#[test]
fn comparison_counts_shared_and_unique_names() {
    let mut reg = ParentRegistry::new();
    let a = reg.add(model("a", ModelFormat::Gguf, None, &["x", "y", "z"]), 0, false).unwrap();
    let b = reg.add(model("b", ModelFormat::Gguf, None, &["y", "w", "x"]), 1, false).unwrap();
    let order: Vec<String> = reg.all().iter().map(|p| p.id.clone()).collect();
    let c = merge_compare_tensors(&reg);
    assert_eq!(c.shared_count, 2);
    assert_eq!(c.unique_count, 2);
    assert_eq!(c.entries.len(), 4);
    assert!(c.entries.iter().all(|e| e.shapes_match));
    for (name, holders) in [
        ("x", vec![a.id.clone(), b.id.clone()]),
        ("y", vec![a.id.clone(), b.id.clone()]),
        ("z", vec![a.id.clone()]),
        ("w", vec![b.id.clone()]),
    ] {
        let entry = c.entries.iter().find(|e| e.tensor_name == name).unwrap();
        let mut expected = holders;
        expected.sort_by_key(|id| order.iter().position(|o| o == id));
        assert_eq!(entry.present_in, expected);
    }
    let first = &reg.all()[0];
    assert_eq!(c.entries[0].tensor_name, first.compat.tensor_metas[0].name);
}
