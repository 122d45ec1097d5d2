use model_merge::config::{
    ComponentOverride, ComponentType, LayerAssignment, MergeConfig, MergeMethod, MethodParams,
    OutputConfig, OutputFormat, ParentWeight, TensorOverride,
};
use model_merge::error::ModelError;
use model_merge::experts::make_expert_name;
use model_merge::model::{ModelFormat, ModelInfo, TensorInfo};
use model_merge::planner::{build_plan, preview_plan, TensorOperation};
use model_merge::precompute::build_output_manifest;
use model_merge::registry::ParentRegistry;

fn info(name: &str, tensors: &[(&str, &[u64])]) -> ModelInfo {
    let all: Vec<TensorInfo> = tensors
        .iter()
        .map(|(n, s)| TensorInfo { name: n.to_string(), dtype: "F32".to_string(), shape: s.to_vec() })
        .collect();
    ModelInfo {
        file_name: name.to_string(),
        file_path: format!("/models/{}", name),
        file_size: 4096,
        file_size_display: "4.00 KB".to_string(),
        format: ModelFormat::SafeTensors,
        tensor_count: all.len() as u64,
        parameter_count: 0,
        parameter_count_display: "0".to_string(),
        layer_count: None,
        quantization: None,
        architecture: None,
        context_length: None,
        embedding_size: None,
        metadata: vec![],
        tensor_preview: vec![],
        all_tensors: all,
        shard_count: None,
        has_tokenizer: None,
        has_config: None,
        model_type: None,
        vocab_size: None,
    }
}

fn one() -> u64 {
    1.0f64.to_bits()
}

fn config(method: MergeMethod, ids: &[&str]) -> MergeConfig {
    MergeConfig {
        parents: ids
            .iter()
            .map(|id| ParentWeight { parent_id: id.to_string(), weight_bits: one() })
            .collect(),
        method,
        params: MethodParams::default(),
        base_parent_id: None,
        layer_assignments: vec![],
        component_overrides: vec![],
        tensor_overrides: vec![],
        output: OutputConfig {
            format: OutputFormat::SafeTensors,
            path: "/out".to_string(),
            model_name: "merged".to_string(),
        },
        memory_limit_mb: None,
        projection_strategy: None,
        skip_layers: vec![],
        batch_size: 1,
    }
}

fn two_parents() -> (ParentRegistry, String, String) {
    let mut reg = ParentRegistry::new();
    let a = reg
        .add(
            info(
                "a",
                &[
                    ("blk.0.attn_q.weight", &[4, 4]),
                    ("blk.0.ffn_gate.weight", &[4, 8]),
                    ("blk.1.attn_q.weight", &[4, 4]),
                    ("only_a.weight", &[2]),
                    ("token_embd.weight", &[10, 4]),
                ],
            ),
            0,
            false,
        )
        .unwrap();
    let b = reg
        .add(
            info(
                "b",
                &[
                    ("blk.0.attn_q.weight", &[4, 4]),
                    ("blk.0.ffn_gate.weight", &[4, 8]),
                    ("blk.1.attn_q.weight", &[4, 4]),
                    ("token_embd.weight", &[10, 4]),
                ],
            ),
            1,
            false,
        )
        .unwrap();
    (reg, a.id, b.id)
}

fn copy_source(op: &TensorOperation) -> Option<(&str, &str)> {
    match op {
        TensorOperation::Copy { tensor_name, parent_id } => Some((tensor_name, parent_id)),
        _ => None,
    }
}

#[test]
fn empty_registry_cannot_be_planned() {
    let reg = ParentRegistry::new();
    let err = build_plan(&config(MergeMethod::Average, &[]), &reg).unwrap_err();
    assert!(matches!(err, ModelError::MergeError(ref m) if m == "No parents loaded"));
    assert_eq!(err.message(), "Merge error: No parents loaded");
    assert!(preview_plan(&config(MergeMethod::Average, &[]), &reg).is_err());
}

#[test]
fn shared_tensors_are_merged_and_others_copied() {
    let (reg, a, b) = two_parents();
    let cfg = config(MergeMethod::Average, &[&a, &b]);
    let plan = build_plan(&cfg, &reg).unwrap();
    assert_eq!(plan.operations.len(), 6);
    assert_eq!(plan.total_tensors, 6);
    assert_eq!(plan.method, MergeMethod::Average);
    assert_eq!(plan.estimated_output_bytes, 4096);
    match &plan.operations[0] {
        TensorOperation::Merge { tensor_name, parent_ids, weights } => {
            assert_eq!(tensor_name, "blk.0.attn_q.weight");
            assert_eq!(parent_ids, &vec![a.clone(), b.clone()]);
            assert_eq!(weights, &vec![one(), one()]);
        }
        other => panic!("unexpected {:?}", other),
    }
    assert_eq!(copy_source(&plan.operations[3]), Some(("only_a.weight", a.as_str())));
    assert!(matches!(&plan.operations[5], TensorOperation::CopyMetadata { parent_id } if *parent_id == a));
    let preview = preview_plan(&cfg, &reg).unwrap();
    assert_eq!(preview.total_operations, 6);
    assert_eq!(preview.copy_operations, 1);
    assert_eq!(preview.merge_operations, 4);
    assert_eq!(preview.synthesize_operations, 0);
    assert_eq!(preview.estimated_output_display, "4.00 KB");
    assert_eq!(preview.tensor_sources.len(), 5);
    assert_eq!(preview.tensor_sources[3].operation, "copy");
    assert_eq!(preview.tensor_sources[3].source_parents, vec![a.clone()]);
    assert_eq!(preview.tensor_sources[0].operation, "merge");
}

#[test]
fn tensor_override_beats_component_override_and_layer_assignment() {
    let (reg, a, b) = two_parents();
    let mut cfg = config(MergeMethod::Average, &[&a, &b]);
    cfg.tensor_overrides = vec![
        TensorOverride { tensor_name: "blk.0.attn_q.weight".to_string(), parent_id: "first".to_string() },
        TensorOverride { tensor_name: "blk.0.attn_q.weight".to_string(), parent_id: "tensor-level".to_string() },
    ];
    cfg.component_overrides = vec![ComponentOverride {
        component: ComponentType::Attention,
        parent_id: "component-level".to_string(),
        layer_start: 0,
        layer_end: 0,
    }];
    cfg.layer_assignments = vec![
        LayerAssignment { layer_index: 0, source_parent_id: "layer-level-old".to_string() },
        LayerAssignment { layer_index: 0, source_parent_id: "layer-level".to_string() },
        LayerAssignment { layer_index: 1, source_parent_id: "layer-one".to_string() },
    ];
    let plan = build_plan(&cfg, &reg).unwrap();
    // Tensor override: the last one for the name counts.
    assert_eq!(copy_source(&plan.operations[0]), Some(("blk.0.attn_q.weight", "tensor-level")));
    // No component override for the feed-forward block of layer 0: the layer assignment decides.
    assert_eq!(copy_source(&plan.operations[1]), Some(("blk.0.ffn_gate.weight", "layer-level")));
    assert_eq!(copy_source(&plan.operations[2]), Some(("blk.1.attn_q.weight", "layer-one")));
    // Tensors without a layer fall to the method.
    assert!(matches!(&plan.operations[4], TensorOperation::Merge { .. }));
}

#[test]
fn component_override_beats_layer_assignment() {
    let (reg, a, b) = two_parents();
    let mut cfg = config(MergeMethod::Slerp, &[&a, &b]);
    cfg.component_overrides = vec![
        ComponentOverride { component: ComponentType::Mlp, parent_id: "mlp".to_string(), layer_start: 0, layer_end: 5 },
        ComponentOverride { component: ComponentType::Attention, parent_id: "attn".to_string(), layer_start: 1, layer_end: 1 },
        ComponentOverride { component: ComponentType::Attention, parent_id: "later".to_string(), layer_start: 0, layer_end: 9 },
    ];
    cfg.layer_assignments = vec![LayerAssignment { layer_index: 1, source_parent_id: "layer".to_string() }];
    let plan = build_plan(&cfg, &reg).unwrap();
    assert_eq!(copy_source(&plan.operations[0]), Some(("blk.0.attn_q.weight", "later")));
    assert_eq!(copy_source(&plan.operations[1]), Some(("blk.0.ffn_gate.weight", "mlp")));
    assert_eq!(copy_source(&plan.operations[2]), Some(("blk.1.attn_q.weight", "attn")));
}

#[test]
fn layer_copy_methods_copy_from_the_first_parent() {
    let (reg, a, b) = two_parents();
    let mut cfg = config(MergeMethod::Frankenmerge, &[&a, &b]);
    cfg.base_parent_id = Some(b.clone());
    let plan = build_plan(&cfg, &reg).unwrap();
    for op in &plan.operations[..5] {
        assert_eq!(copy_source(op).unwrap().1, a);
    }
    assert!(matches!(&plan.operations[5], TensorOperation::CopyMetadata { parent_id } if *parent_id == b));
}

#[test]
fn moe_conversion_makes_experts_and_a_router() {
    let mut reg = ParentRegistry::new();
    let a = reg.add(info("a", &[("l.0.mlp.gate_proj.weight", &[4, 8]), ("l.0.mlp.up_proj.weight", &[4, 8]), ("norm.weight", &[4])]), 0, false).unwrap();
    let b = reg.add(info("b", &[("l.0.mlp.gate_proj.weight", &[4, 8]), ("norm.weight", &[4])]), 1, false).unwrap();
    let cfg = config(MergeMethod::MoeConversion, &[&a.id, &b.id]);
    let plan = build_plan(&cfg, &reg).unwrap();
    match &plan.operations[0] {
        TensorOperation::Merge { tensor_name, .. } => assert_eq!(tensor_name, "norm.weight"),
        other => panic!("unexpected {:?}", other),
    }
    assert_eq!(copy_source(&plan.operations[1]), Some(("l.0.experts.0.mlp.gate_proj.weight", a.id.as_str())));
    assert_eq!(copy_source(&plan.operations[2]), Some(("l.0.experts.1.mlp.gate_proj.weight", b.id.as_str())));
    match &plan.operations[3] {
        TensorOperation::Synthesize { tensor_name, shape, strategy } => {
            assert_eq!(tensor_name, "l.0.mlp.router.weight.weight");
            assert_eq!(shape, &vec![2usize, 1]);
            assert_eq!(strategy, "random_init");
        }
        other => panic!("unexpected {:?}", other),
    }
    assert_eq!(copy_source(&plan.operations[4]), Some(("l.0.experts.0.mlp.up_proj.weight", a.id.as_str())));
    assert_eq!(copy_source(&plan.operations[5]), Some(("l.0.experts.1.mlp.up_proj.weight", b.id.as_str())));
    assert!(matches!(&plan.operations[6], TensorOperation::CopyMetadata { .. }));
    assert_eq!(plan.operations.len(), 7);
}

#[test]
fn expert_tensors_stand_behind_all_ordinary_tensors() {
    let mut reg = ParentRegistry::new();
    let names: [(&str, &[u64]); 5] = [
        ("blk.0.attn_q.weight", &[4, 4]),
        ("blk.0.ffn_gate.weight", &[4, 8]),
        ("blk.0.ffn_up.weight", &[4, 8]),
        ("blk.1.attn_q.weight", &[4, 4]),
        ("h.1.fc1.weight", &[4, 4]),
    ];
    let a = reg.add(info("a", &names), 0, false).unwrap();
    let b = reg.add(info("b", &names), 1, false).unwrap();
    let c = reg.add(info("c", &names), 2, false).unwrap();
    let mut cfg = config(MergeMethod::MoeConversion, &[&a.id, &b.id, &c.id]);
    cfg.tensor_overrides.push(TensorOverride { tensor_name: "blk.0.ffn_up.weight".into(), parent_id: b.id.clone() });
    let plan = build_plan(&cfg, &reg).unwrap();
    let produced: Vec<String> = plan
        .operations
        .iter()
        .filter_map(|op| match op {
            TensorOperation::Copy { tensor_name, .. }
            | TensorOperation::Merge { tensor_name, .. }
            | TensorOperation::Synthesize { tensor_name, .. } => Some(tensor_name.clone()),
            TensorOperation::CopyMetadata { .. } => None,
        })
        .collect();
    assert_eq!(
        produced,
        vec![
            "blk.0.attn_q.weight",
            "blk.0.ffn_up.weight",
            "blk.1.attn_q.weight",
            "blk.0.experts.0.ffn_gate.weight",
            "blk.0.experts.1.ffn_gate.weight",
            "blk.0.experts.2.ffn_gate.weight",
            "blk.0.router.weight.weight",
            "experts.0.h.1.fc1.weight",
            "experts.1.h.1.fc1.weight",
            "experts.2.h.1.fc1.weight",
        ]
    );
    assert_eq!(copy_source(&plan.operations[1]), Some(("blk.0.ffn_up.weight", b.id.as_str())));
    assert_eq!(copy_source(&plan.operations[3]), Some(("blk.0.experts.0.ffn_gate.weight", a.id.as_str())));
    assert_eq!(copy_source(&plan.operations[5]), Some(("blk.0.experts.2.ffn_gate.weight", c.id.as_str())));
    assert_eq!(copy_source(&plan.operations[9]), Some(("experts.2.h.1.fc1.weight", c.id.as_str())));
    let mut once = produced.clone();
    once.sort();
    once.dedup();
    assert_eq!(once.len(), produced.len());
    assert!(matches!(plan.operations.last(), Some(TensorOperation::CopyMetadata { .. })));
}

#[test]
fn expert_names_hold_the_number_of_the_expert() {
    assert_eq!(make_expert_name("model.layers.0.mlp.up_proj.weight", 1), "model.layers.0.experts.1.mlp.up_proj.weight");
    assert_eq!(make_expert_name("blk.7.ffn_down.weight", 12), "blk.7.experts.12.ffn_down.weight");
    assert_eq!(make_expert_name("a.mlp.b.mlp.c", 0), "a.experts.0.mlp.b.mlp.c");
    assert_eq!(make_expert_name("ffn_x.mlp", 3), "ffn_x.experts.3.mlp");
    assert_eq!(make_expert_name("h.0.c_fc.weight", 4), "experts.4.h.0.c_fc.weight");
    assert_eq!(make_expert_name("", 0), "experts.0.");
    for name in ["x.mlp.y", "blk.0.ffn_gate.weight", "fc2"] {
        let names: Vec<String> = (0..25).map(|i| make_expert_name(name, i)).collect();
        for (i, n) in names.iter().enumerate() {
            assert!(n.contains(&format!("experts.{}", i)));
            assert!(names.iter().filter(|m| *m == n).count() == 1);
        }
    }
}

#[test]
fn manifest_offsets_follow_one_another() {
    let (reg, a, b) = two_parents();
    let cfg = config(MergeMethod::Average, &[&a, &b]);
    let plan = build_plan(&cfg, &reg).unwrap();
    let first = build_output_manifest(&plan.operations, &reg).unwrap();
    let again = build_output_manifest(&plan.operations, &reg).unwrap();
    let sizes: Vec<u64> = first.tensors.iter().map(|t| t.f32_byte_size).collect();
    let offsets: Vec<u64> = first.tensors.iter().map(|t| t.data_offset).collect();
    assert_eq!(sizes, vec![64, 128, 64, 8, 160]);
    assert_eq!(offsets, vec![0, 64, 192, 256, 264]);
    assert_eq!(first.total_data_bytes, 424);
    assert_eq!(first.total_data_bytes, sizes.iter().sum::<u64>());
    for w in first.tensors.windows(2) {
        assert!(w[0].data_offset < w[1].data_offset);
        assert_eq!(w[0].data_offset + w[0].f32_byte_size, w[1].data_offset);
    }
    let again_offsets: Vec<u64> = again.tensors.iter().map(|t| t.data_offset).collect();
    assert_eq!(offsets, again_offsets);
    assert_eq!(first.tensors[3].name, "only_a.weight");
    assert_eq!(first.tensors[3].shape, vec![2usize]);
}

#[test]
fn manifest_reports_what_cannot_be_resolved() {
    let (reg, a, _b) = two_parents();
    let ops = vec![TensorOperation::Copy { tensor_name: "x".to_string(), parent_id: "nobody".to_string() }];
    let err = build_output_manifest(&ops, &reg).unwrap_err();
    assert!(matches!(err, ModelError::ParentNotFound(ref id) if id == "nobody"));
    let ops = vec![TensorOperation::Copy { tensor_name: "x".to_string(), parent_id: a.clone() }];
    let err = build_output_manifest(&ops, &reg).unwrap_err();
    assert_eq!(err.message(), "Merge error: Tensor 'x' not found in parent 'a'");
    let ops = vec![
        TensorOperation::Synthesize { tensor_name: "big".to_string(), shape: vec![usize::MAX, 8], strategy: "zeros".to_string() },
    ];
    let err = build_output_manifest(&ops, &reg).unwrap_err();
    assert_eq!(err.message(), "Merge error: Output size exceeds the 64-bit range");
    let ops = vec![
        TensorOperation::Synthesize { tensor_name: "scalar".to_string(), shape: vec![], strategy: "zeros".to_string() },
        TensorOperation::Synthesize { tensor_name: "none".to_string(), shape: vec![usize::MAX, 0, 3], strategy: "zeros".to_string() },
        TensorOperation::CopyMetadata { parent_id: a.clone() },
        TensorOperation::Synthesize { tensor_name: "last".to_string(), shape: vec![3], strategy: "zeros".to_string() },
    ];
    let m = build_output_manifest(&ops, &reg).unwrap();
    assert_eq!(m.tensors.len(), 3);
    assert_eq!(m.tensors[0].f32_byte_size, 4);
    assert_eq!(m.tensors[1].f32_byte_size, 0);
    assert_eq!(m.tensors[2].data_offset, 4);
    assert_eq!(m.total_data_bytes, 16);
}
