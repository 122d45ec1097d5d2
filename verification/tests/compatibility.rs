use model_merge::compatibility::{check_compatibility, generate_resolution_strategies, DimensionMismatch};
use model_merge::config::{
    MergeConfig, MergeMethod, MergeMethodInfo, MethodParams, OutputConfig, OutputFormat,
    ParentWeight, default_batch_size,
};
use model_merge::methods::{
    check_inputs, name_of, slice_dimension, uses_ranges, AverageMerge, DareMerge, PassthroughMerge,
    SlerpMerge, TiesMerge,
};
use model_merge::model::{ModelFormat, ModelInfo, TensorInfo};
use model_merge::registry::ParentRegistry;
use model_merge::validation::merge_validate_config;

fn info(name: &str, arch: Option<&str>, hidden: Option<u64>, layers: Option<u64>, vocab: Option<u64>, format: ModelFormat, names: &[&str]) -> ModelInfo {
    ModelInfo {
        file_name: name.to_string(),
        file_path: format!("/m/{}", name),
        file_size: 1,
        file_size_display: "1 B".to_string(),
        format,
        tensor_count: names.len() as u64,
        parameter_count: 0,
        parameter_count_display: "0".to_string(),
        layer_count: layers,
        quantization: None,
        architecture: arch.map(|a| a.to_string()),
        context_length: None,
        embedding_size: hidden,
        metadata: vec![],
        tensor_preview: vec![],
        all_tensors: names.iter().map(|n| TensorInfo { name: n.to_string(), dtype: "F32".into(), shape: vec![1] }).collect(),
        shard_count: None,
        has_tokenizer: None,
        has_config: None,
        model_type: None,
        vocab_size: vocab,
    }
}

#[test]
fn fewer_than_two_parents_are_incompatible() {
    let mut reg = ParentRegistry::new();
    let r = check_compatibility(&reg);
    assert!(!r.compatible);
    assert_eq!(r.errors, vec!["At least 2 parent models required".to_string()]);
    reg.add(info("a", None, None, None, None, ModelFormat::Gguf, &["x"]), 0, false).unwrap();
    let r = check_compatibility(&reg);
    assert!(!r.compatible && !r.architecture_match && r.warnings.is_empty());
    assert_eq!(r.total_tensor_count, 0);
}

#[test]
fn matching_parents_are_compatible() {
    let mut reg = ParentRegistry::new();
    reg.add(info("a", Some("Llama"), Some(64), Some(2), Some(100), ModelFormat::Gguf, &["x", "y", "z"]), 0, false).unwrap();
    reg.add(info("b", Some("llama"), Some(64), Some(2), Some(100), ModelFormat::Gguf, &["x", "y", "z"]), 1, false).unwrap();
    let r = check_compatibility(&reg);
    assert!(r.compatible);
    assert!(r.errors.is_empty());
    assert!(r.warnings.is_empty());
    assert!(r.architecture_match && r.dimension_match && r.layer_count_match);
    assert_eq!(r.shared_tensor_count, 3);
    assert_eq!(r.total_tensor_count, 3);
    assert!(r.dimension_details.is_empty());
    assert!(r.resolution_strategies.is_empty());
}

#[test]
fn mismatches_are_reported_in_order() {
    let mut reg = ParentRegistry::new();
    reg.add(info("a", Some("llama"), Some(64), Some(2), Some(100), ModelFormat::Gguf, &["a", "b", "c", "d", "e", "f", "g", "h"]), 0, false).unwrap();
    reg.add(info("b", Some("mistral"), Some(128), Some(4), Some(200), ModelFormat::SafeTensors, &["a", "b", "c"]), 1, false).unwrap();
    reg.add(info("c", None, None, Some(2), None, ModelFormat::SafeTensors, &["a", "b", "c", "x"]), 2, false).unwrap();
    let r = check_compatibility(&reg);
    assert!(!r.compatible);
    assert_eq!(
        r.errors,
        vec![
            "Architecture mismatch: llama vs mistral".to_string(),
            "Hidden dimension mismatch: 64 vs 128".to_string(),
            "Very low tensor name overlap: 38% (3/8)".to_string(),
        ]
    );
    assert_eq!(
        r.warnings,
        vec![
            "Layer count differs: 2 vs 4 vs 2 (Frankenmerge may be required)".to_string(),
            "Vocab size mismatch: 100 vs 200".to_string(),
            "Mixed formats detected (GGUF tensors will be dequantized to F32)".to_string(),
        ]
    );
    assert!(!r.architecture_match && !r.dimension_match && !r.layer_count_match);
    assert_eq!(r.shared_tensor_count, 3);
    assert_eq!(r.total_tensor_count, 8);
    let dims: Vec<(&str, &str)> = r.dimension_details.iter().map(|d| (d.dimension_name.as_str(), d.severity.as_str())).collect();
    assert_eq!(dims, vec![("hidden_dim", "error"), ("num_layers", "warning"), ("vocab_size", "warning")]);
    assert_eq!(r.dimension_details[0].values, vec![("a".to_string(), 64), ("b".to_string(), 128)]);
    assert_eq!(r.dimension_details[1].values.len(), 3);
    let names: Vec<&str> = r.resolution_strategies.iter().map(|s| s.name.as_str()).collect();
    assert_eq!(names, vec!["zero_padding", "interpolation", "truncation", "zero_padding", "truncation", "moe_routing"]);
    assert_eq!(r.resolution_strategies[5].applicable_to, vec!["hidden_dim".to_string(), "num_layers".to_string(), "vocab_size".to_string()]);
    assert_eq!(r.resolution_strategies[3].applicable_to, vec!["vocab_size".to_string()]);
    assert_eq!(r.resolution_strategies[3].quality_estimate, "high");
    assert!(!r.resolution_strategies[0].requires_training);
}

#[test]
fn missing_metadata_and_low_overlap_warn() {
    let mut reg = ParentRegistry::new();
    reg.add(info("a", None, None, None, None, ModelFormat::Gguf, &["a", "b", "c", "d"]), 0, false).unwrap();
    reg.add(info("b", Some("x"), Some(1), Some(1), None, ModelFormat::Gguf, &["a", "b", "c", "y"]), 1, false).unwrap();
    let r = check_compatibility(&reg);
    assert!(r.compatible);
    assert_eq!(
        r.warnings,
        vec![
            "Could not verify architecture compatibility (metadata missing)".to_string(),
            "Could not verify hidden dimension compatibility".to_string(),
            "Could not verify layer count compatibility".to_string(),
            "Tensor name overlap below 80%: 75% (3/4)".to_string(),
        ]
    );
    assert!(generate_resolution_strategies(&[]).is_empty());
    let one = generate_resolution_strategies(&[DimensionMismatch { dimension_name: "num_layers".into(), values: vec![], severity: "warning".into() }]);
    assert_eq!(one.len(), 1);
    assert_eq!(one[0].name, "moe_routing");
}

#[test]
fn overlap_percentage_is_rounded_to_nearest() {
    for (shared, most, text) in [(1usize, 8usize, "12%"), (3, 8, "38%"), (1, 3, "33%"), (2, 3, "67%"), (0, 5, "0%"), (1, 200, "0%"), (3, 200, "2%")] {
        let mut reg = ParentRegistry::new();
        let all: Vec<String> = (0..most).map(|i| format!("t{}", i)).collect();
        let a: Vec<&str> = all.iter().map(|s| s.as_str()).collect();
        let mut other: Vec<String> = all[..shared].to_vec();
        other.push("extra".to_string());
        let b: Vec<&str> = other.iter().map(|s| s.as_str()).collect();
        reg.add(info("a", Some("x"), Some(1), Some(1), None, ModelFormat::Gguf, &a), 0, false).unwrap();
        reg.add(info("b", Some("x"), Some(1), Some(1), None, ModelFormat::Gguf, &b), 1, false).unwrap();
        let r = check_compatibility(&reg);
        let float = format!("{:.0}%", (shared as f64 / most as f64) * 100.0);
        assert_eq!(float, text);
        let all_messages: Vec<&String> = r.errors.iter().chain(r.warnings.iter()).collect();
        assert!(all_messages.iter().any(|m| m.contains(&format!(": {} ({}/{})", text, shared, most))), "{:?}", all_messages);
    }
}

fn config(method: MergeMethod, ids: &[&str]) -> MergeConfig {
    MergeConfig {
        parents: ids.iter().map(|id| ParentWeight { parent_id: id.to_string(), weight_bits: 0 }).collect(),
        method,
        params: MethodParams::default(),
        base_parent_id: None,
        layer_assignments: vec![],
        component_overrides: vec![],
        tensor_overrides: vec![],
        output: OutputConfig { format: OutputFormat::Gguf, path: String::new(), model_name: "m".into() },
        memory_limit_mb: None,
        projection_strategy: None,
        skip_layers: vec![],
        batch_size: default_batch_size(),
    }
}

#[test]
fn configurations_are_validated() {
    let mut reg = ParentRegistry::new();
    let a = reg.add(info("a", None, None, None, None, ModelFormat::Gguf, &[]), 0, false).unwrap();
    let r = merge_validate_config(&config(MergeMethod::Ties, &[&a.id, "ghost", "phantom"]), &reg, Some("Weights sum to 0.50, will be normalized to 1.0".to_string()));
    assert!(!r.valid);
    assert_eq!(
        r.errors,
        vec![
            "TIES requires at least 2 parents".to_string(),
            "TIES requires a base model".to_string(),
            "Parent 'ghost' not found".to_string(),
            "Parent 'phantom' not found".to_string(),
            "Output path is required".to_string(),
        ]
    );
    assert_eq!(r.warnings, vec!["Weights sum to 0.50, will be normalized to 1.0".to_string()]);
    let b = reg.add(info("b", None, None, None, None, ModelFormat::Gguf, &[]), 1, false).unwrap();
    let mut ok = config(MergeMethod::Average, &[&a.id, &b.id]);
    ok.output.path = "/out".to_string();
    let r = merge_validate_config(&ok, &reg, None);
    assert!(r.valid && r.errors.is_empty());
    assert_eq!(r.warnings.len(), 1);
    assert!(r.warnings[0].starts_with("AVERAGE merges all tensors by weighted mean."));
    let mut franken = config(MergeMethod::Frankenmerge, &[&a.id]);
    franken.output.path = "/out".to_string();
    let r = merge_validate_config(&franken, &reg, None);
    assert_eq!(r.errors, vec!["FRANKENMERGE requires layer assignments. Assign each offspring layer to a parent in the Layers tab.".to_string()]);
    let mut pass = config(MergeMethod::Passthrough, &[&a.id]);
    pass.output.path = "/out".to_string();
    let r = merge_validate_config(&pass, &reg, None);
    assert!(r.valid);
    assert_eq!(r.warnings, vec!["PASSTHROUGH with no layer assignments will copy all layers from the first parent.".to_string()]);
}

#[test]
fn methods_describe_themselves() {
    assert_eq!(MergeMethod::all().len(), 12);
    assert_eq!(MergeMethod::all()[0], MergeMethod::Average);
    assert_eq!(MergeMethod::all()[11], MergeMethod::MoeConversion);
    assert_eq!(MergeMethod::Slerp.display_name(), "SLERP");
    assert_eq!(MergeMethod::Della.description(), "Density-based DARE with lambda interpolation");
    assert_eq!(MergeMethod::Dare.difficulty(), "intermediate");
    assert_eq!(MergeMethod::ParameterSlice.difficulty(), "advanced");
    assert_eq!(MergeMethod::Average.difficulty(), "easy");
    for m in MergeMethod::all() {
        let base = matches!(m, MergeMethod::TaskArithmetic | MergeMethod::Dare | MergeMethod::Ties | MergeMethod::Della);
        assert_eq!(m.requires_base(), base);
        assert_eq!(m.min_parents(), if *m == MergeMethod::Passthrough { 1 } else { 2 });
        let described = MergeMethodInfo::from(*m);
        assert_eq!(described.id, *m);
        assert_eq!(described.name, m.display_name());
        assert_eq!(described.description, m.description());
        assert_eq!(described.requires_base, base);
        assert_eq!(described.difficulty, m.difficulty());
    }
    let p = MethodParams::default();
    assert!(p.t.is_none() && p.slice_ranges.is_none() && p.majority_sign_method.is_none());
}

#[test]
fn strategies_refuse_what_they_cannot_merge() {
    assert_eq!(AverageMerge.name(), "Average");
    assert_eq!(name_of(MergeMethod::MoeConversion), "MoE Conversion");
    assert!(!AverageMerge.requires_base());
    assert!(TiesMerge.requires_base());
    assert_eq!(PassthroughMerge.min_parents(), 1);
    assert_eq!(SlerpMerge.min_parents(), 2);
    assert_eq!(AverageMerge.check(0, false).unwrap_err().message(), "Merge error: No tensors to average");
    assert!(AverageMerge.check(1, false).is_ok());
    assert_eq!(SlerpMerge.check(1, true).unwrap_err().message(), "Merge error: SLERP requires exactly 2 tensors");
    assert!(SlerpMerge.check(2, false).is_ok());
    for count in [0usize, 1, 3, 4, 5] {
        assert_eq!(
            SlerpMerge.check(count, true).unwrap_err().message(),
            "Merge error: SLERP requires exactly 2 tensors"
        );
    }
    assert_eq!(DareMerge.check(2, false).unwrap_err().message(), "Merge error: DARE requires a base model");
    assert!(DareMerge.check(0, true).is_ok());
    assert_eq!(PassthroughMerge.check(0, true).unwrap_err().message(), "Merge error: No tensor to pass through");
    assert_eq!(check_inputs(MergeMethod::ParameterSlice, 1, false).unwrap_err().message(), "Merge error: Parameter Slice requires at least 2 tensors");
    assert_eq!(check_inputs(MergeMethod::TensorSurgery, 0, false).unwrap_err().message(), "Merge error: No tensors for tensor surgery");
    assert_eq!(slice_dimension(None, 2).unwrap(), 0);
    assert_eq!(slice_dimension(Some(1), 2).unwrap(), 1);
    assert_eq!(slice_dimension(Some(2), 2).unwrap_err().message(), "Merge error: Slice dimension 2 exceeds tensor rank 2");
    assert_eq!(slice_dimension(None, 0).unwrap_err().message(), "Merge error: Slice dimension 0 exceeds tensor rank 0");
    assert!(uses_ranges(&Some(vec![(0, 1), (1, 2)]), 2));
    assert!(!uses_ranges(&Some(vec![(0, 1)]), 2));
    assert!(!uses_ranges(&None, 0));
}
