use model_merge::model::{ModelFormat, ModelInfo, TensorInfo};
use model_merge::registry::{ParentRegistry, MAX_PARENTS};

fn sample_info(name: &str, tensors: &[(&str, &[u64])]) -> ModelInfo {
    let all: Vec<TensorInfo> = tensors
        .iter()
        .map(|(n, s)| TensorInfo { name: n.to_string(), dtype: "F32".to_string(), shape: s.to_vec() })
        .collect();
    ModelInfo {
        file_name: name.to_string(),
        file_path: format!("/models/{}", name),
        file_size: 1024,
        file_size_display: "1.00 KB".to_string(),
        format: ModelFormat::SafeTensors,
        tensor_count: all.len() as u64,
        parameter_count: 0,
        parameter_count_display: "0".to_string(),
        layer_count: None,
        quantization: None,
        architecture: Some("llama".to_string()),
        context_length: None,
        embedding_size: None,
        metadata: vec![
            ("general.architecture".to_string(), "llama".to_string()),
            ("llama.attention.head_count".to_string(), "32".to_string()),
        ],
        tensor_preview: vec![],
        all_tensors: all,
        shard_count: None,
        has_tokenizer: None,
        has_config: None,
        model_type: None,
        vocab_size: None,
    }
}

#[test]
fn sixth_parent_is_refused_and_registry_unchanged() {
    let mut reg = ParentRegistry::new();
    for slot in 0..MAX_PARENTS {
        let p = reg.add(sample_info("m", &[("a", &[2, 3])]), slot, false).unwrap();
        assert_eq!(p.slot, slot);
    }
    let before: Vec<(String, usize)> = reg.all().iter().map(|p| (p.id.clone(), p.slot)).collect();
    let err = reg.add(sample_info("x", &[]), 7, false).unwrap_err();
    assert_eq!(err, "Maximum 5 parents allowed");
    let after: Vec<(String, usize)> = reg.all().iter().map(|p| (p.id.clone(), p.slot)).collect();
    assert_eq!(before, after);
    assert_eq!(reg.len(), 5);
}

#[test]
fn occupied_slot_is_refused() {
    let mut reg = ParentRegistry::new();
    reg.add(sample_info("m", &[]), 3, false).unwrap();
    let err = reg.add(sample_info("n", &[]), 3, true).unwrap_err();
    assert_eq!(err, "Slot 3 already occupied");
    assert_eq!(reg.len(), 1);
}

#[test]
fn added_parent_carries_compat_info() {
    let mut reg = ParentRegistry::new();
    let p = reg.add(sample_info("m.gguf", &[("blk.0.attn_q.weight", &[4, 4])]), 0, false).unwrap();
    assert_eq!(p.name, "m.gguf");
    assert_eq!(p.color, "#FF6B35");
    assert_eq!(p.compat.num_attention_heads, Some(32));
    assert_eq!(p.compat.num_kv_heads, None);
    assert_eq!(p.compat.tensor_metas.len(), 1);
    assert_eq!(p.compat.tensor_shape("blk.0.attn_q.weight"), Some(&[4usize, 4][..]));
    assert_eq!(p.id.len(), 36);
    assert!(reg.get(&p.id).is_some());
    assert!(reg.remove(&p.id));
    assert!(reg.is_empty());
}

#[test]
fn shared_names_are_those_of_every_parent() {
    let mut reg = ParentRegistry::new();
    reg.add(sample_info("a", &[("x", &[1]), ("y", &[1]), ("x", &[1])]), 0, false).unwrap();
    assert!(reg.shared_tensor_names().is_empty());
    reg.add(sample_info("b", &[("y", &[1]), ("z", &[1]), ("x", &[2])]), 1, false).unwrap();
    assert_eq!(reg.shared_tensor_names(), vec!["x".to_string(), "y".to_string()]);
}

#[test]
fn an_id_in_use_is_refused() {
    let mut reg = ParentRegistry::new();
    let p = reg.add_with_id(sample_info("m", &[]), 0, false, "one".to_string()).unwrap();
    assert_eq!(p.id, "one");
    let err = reg.add_with_id(sample_info("n", &[]), 1, false, "one".to_string()).unwrap_err();
    assert_eq!(err, "Parent id one already registered");
    assert_eq!(reg.len(), 1);
    let err = reg.add_with_id(sample_info("n", &[]), 0, false, "one".to_string()).unwrap_err();
    assert_eq!(err, "Slot 0 already occupied");
    assert!(reg.add_with_id(sample_info("n", &[]), 1, true, "two".to_string()).unwrap().is_dir);
}

#[test]
fn colours_rotate_with_the_number_of_parents() {
    let mut reg = ParentRegistry::new();
    let mut colours = Vec::new();
    for slot in 0..MAX_PARENTS {
        colours.push(reg.add(sample_info("m", &[]), slot, false).unwrap().color);
    }
    assert_eq!(colours, vec!["#FF6B35", "#4ECDC4", "#95E1D3", "#A78BFA", "#F472B6"]);
    let first = reg.all()[0].id.clone();
    assert!(reg.remove(&first));
    assert_eq!(reg.add(sample_info("m", &[]), 0, false).unwrap().color, "#F472B6");
}

#[test]
fn parents_are_found_by_id_and_slots_by_number() {
    let mut reg = ParentRegistry::new();
    let a = reg.add(sample_info("a", &[]), 4, false).unwrap();
    let b = reg.add(sample_info("b", &[]), 2, false).unwrap();
    assert_ne!(a.id, b.id);
    assert_eq!(reg.position(&a.id), Some(0));
    assert_eq!(reg.position(&b.id), Some(1));
    assert_eq!(reg.position("nobody"), None);
    assert_eq!(reg.get(&b.id).map(|p| p.name.as_str()), Some("b"));
    assert!(reg.get("nobody").is_none());
    assert!(reg.slot_occupied(4) && reg.slot_occupied(2));
    assert!(!reg.slot_occupied(0));
    assert!(!reg.remove("nobody"));
    assert_eq!(reg.len(), 2);
    assert!(reg.remove(&a.id));
    assert_eq!(reg.position(&b.id), Some(0));
    assert!(!reg.slot_occupied(4));
    reg.clear();
    assert!(reg.is_empty());
    assert!(reg.all().is_empty());
}

#[test]
fn a_snapshot_holds_the_same_parents() {
    let mut reg = ParentRegistry::new();
    reg.add(sample_info("a", &[("x", &[1]), ("y", &[2])]), 0, false).unwrap();
    reg.add(sample_info("b", &[("y", &[2])]), 1, false).unwrap();
    let copy = ParentRegistry::from_snapshot(reg.all().to_vec());
    assert_eq!(copy.len(), 2);
    let ids: Vec<&str> = copy.all().iter().map(|p| p.id.as_str()).collect();
    let held: Vec<&str> = reg.all().iter().map(|p| p.id.as_str()).collect();
    assert_eq!(ids, held);
    assert_eq!(copy.shared_tensor_count(), 1);
    assert_eq!(copy.shared_tensor_names(), vec!["y".to_string()]);
    assert!(copy.all()[0].compat.has_tensor("x"));
    assert!(!copy.all()[1].compat.has_tensor("x"));
    assert_eq!(copy.all()[0].compat.tensor_names(), vec!["x".to_string(), "y".to_string()]);
}
