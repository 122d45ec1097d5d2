use model_merge::error::ModelError;
use model_merge::model::{ModelFormat, ModelInfo};
use model_merge::output::safetensors_header;
use model_merge::precompute::OutputTensorInfo;
use model_merge::registry::ParentRegistry;
use model_merge::safetensors::{parse, parse_config_json, parse_header, parse_dir};
use model_merge::tensor_io::{
    after_shard, dequantize_q4_0, dequantize_q4_1, dequantize_q8_0, get_tensor_names,
    ggml_block_size, ggml_type_size, load_route, locate_safetensors_tensor, not_in_any_shard,
    safetensors_dtype, ElementKind, LoadRoute, ShardStep,
};

fn file_with(header: &str, data: &[u8]) -> Vec<u8> {
    let mut f = (header.len() as u64).to_le_bytes().to_vec();
    f.extend_from_slice(header.as_bytes());
    f.extend_from_slice(data);
    f
}

#[test]
fn q4_0_block_of_eights_is_all_zero() {
    let one = half::f16::from_f32(1.0).to_bits();
    let mut block = one.to_le_bytes().to_vec();
    block.extend_from_slice(&[0x88u8; 16]);
    let out = dequantize_q4_0(&block, 32);
    assert_eq!(out.levels.len(), 32);
    assert_eq!(out.scales, vec![one]);
    assert!(out.mins.is_empty());
    let scale = half::f16::from_bits(out.scales[0]).to_f32();
    assert_eq!(scale, 1.0);
    for level in &out.levels {
        assert_eq!(*level as f32 * scale, 0.0);
    }
}

#[test]
fn q4_0_byte_f0_gives_minus_eight_and_seven() {
    let one = half::f16::from_f32(1.0).to_bits();
    let mut block = one.to_le_bytes().to_vec();
    block.push(0xF0);
    block.extend_from_slice(&[0x88u8; 15]);
    let out = dequantize_q4_0(&block, 32);
    let scale = half::f16::from_bits(out.scales[0]).to_f32();
    assert_eq!(out.levels[0] as f32 * scale, -8.0);
    assert_eq!(out.levels[1] as f32 * scale, 7.0);
    assert_eq!(out.levels[2], 0);
}

#[test]
fn blocks_are_decoded_as_far_as_data_and_count_go() {
    let mut data: Vec<u8> = Vec::new();
    for b in 0..3u8 {
        data.extend_from_slice(&[b, 0x3C]);
        for j in 0..16u8 {
            data.push(j * 16 + (15 - j));
        }
    }
    // Two full blocks and seven weights of a third.
    let out = dequantize_q4_0(&data, 71);
    assert_eq!(out.levels.len(), 71);
    assert_eq!(out.scales, vec![0x3C00, 0x3C01, 0x3C02]);
    assert_eq!(&out.levels[..4], &[7, -8, 6, -7]);
    assert_eq!(out.levels[64], 7);
    // Fewer bytes than the count asks for: only the full blocks are decoded.
    let cut = dequantize_q4_0(&data[..40], 96);
    assert_eq!(cut.levels.len(), 64);
    assert_eq!(cut.scales.len(), 2);
    assert_eq!(dequantize_q4_0(&data, 0).levels.len(), 0);
    assert_eq!(dequantize_q4_0(&[], 10).levels.len(), 0);
}

#[test]
fn q4_1_and_q8_0_blocks() {
    let mut b41: Vec<u8> = vec![0x00, 0x3C, 0x00, 0x40];
    b41.extend_from_slice(&[0xF0u8; 16]);
    let out = dequantize_q4_1(&b41, 32);
    assert_eq!(out.scales, vec![0x3C00]);
    assert_eq!(out.mins, vec![0x4000]);
    assert_eq!(&out.levels[..2], &[0, 15]);
    let scale = half::f16::from_bits(out.scales[0]).to_f32();
    let min = half::f16::from_bits(out.mins[0]).to_f32();
    assert_eq!(out.levels[1] as f32 * scale + min, 17.0);
    let mut b80: Vec<u8> = vec![0x00, 0x38];
    for j in 0..32u8 {
        b80.push(j.wrapping_mul(9).wrapping_sub(100));
    }
    let out = dequantize_q8_0(&b80, 32);
    assert_eq!(out.levels.len(), 32);
    for j in 0..32u8 {
        assert_eq!(out.levels[j as usize], j.wrapping_mul(9).wrapping_sub(100) as i8);
    }
    assert_eq!(half::f16::from_bits(out.scales[0]).to_f32(), 0.5);
    assert_eq!(ggml_block_size(2), 32);
    assert_eq!(ggml_block_size(12), 256);
    assert_eq!(ggml_block_size(0), 1);
    assert_eq!(ggml_type_size(3), 20);
    assert_eq!(ggml_type_size(8), 34);
    assert_eq!(ggml_type_size(77), 18);
}

#[test]
fn safetensors_tensor_is_located() {
    let header = r#"{"a":{"dtype":"F16","shape":[2,3],"data_offsets":[4,16]},"b":{"shape":[1],"data_offsets":[0,4]},"__metadata__":{"format":"pt"}}"#;
    let data = file_with(header, &[0u8; 16]);
    let s = locate_safetensors_tensor(&data, "a").unwrap();
    assert_eq!(s.kind, ElementKind::F16);
    assert_eq!(s.elem_size, 2);
    assert_eq!(s.shape, vec![2usize, 3]);
    assert_eq!(s.start, 8 + header.len() + 4);
    assert_eq!(s.end, 8 + header.len() + 16);
    let b = locate_safetensors_tensor(&data, "b").unwrap();
    assert_eq!(b.kind, ElementKind::F32);
    assert_eq!((b.start, b.end), (8 + header.len(), 8 + header.len() + 4));
    let err = locate_safetensors_tensor(&data, "c").unwrap_err();
    assert!(matches!(err, ModelError::TensorNotFound { ref tensor_name, ref parent_id } if tensor_name == "c" && parent_id.is_empty()));
}

#[test]
fn safetensors_lookup_reports_what_is_wrong() {
    let check = |header: &str, payload: usize, name: &str, expected: &str| {
        let data = file_with(header, &vec![0u8; payload]);
        assert_eq!(locate_safetensors_tensor(&data, name).unwrap_err().message(), expected);
    };
    check(r#"[1,2]"#, 0, "a", "Invalid SafeTensors file: Header is not a JSON object");
    check(r#"{"a":5}"#, 0, "a", "Invalid SafeTensors file: Tensor entry 'a' is not an object");
    check(r#"{"a":{"dtype":"F32"}}"#, 0, "a", "Invalid SafeTensors file: No data_offsets for tensor 'a'");
    check(r#"{"a":{"dtype":"F32","data_offsets":[0]}}"#, 0, "a", "Invalid SafeTensors file: No data_offsets for tensor 'a'");
    check(r#"{"a":{"dtype":"F32","shape":[1],"data_offsets":[0,8]}}"#, 4, "a", "Invalid SafeTensors file: Tensor data range 0..8 lies outside the 4 bytes of tensor data");
    check(r#"{"a":{"dtype":"F32","shape":[1],"data_offsets":[3,2]}}"#, 4, "a", "Invalid SafeTensors file: Tensor data range 3..2 lies outside the 4 bytes of tensor data");
    check(r#"{"a":{"dtype":"F8","shape":[1],"data_offsets":[0,4]}}"#, 4, "a", "Invalid SafeTensors file: Unsupported dtype: F8");
    check(r#"{"a":{"dtype":"F32","shape":[2,2],"data_offsets":[0,12]}}"#, 12, "a", "Invalid SafeTensors file: Tensor data too small: 12 bytes (expected 16)");
    check(r#"{"a":{"dtype":"F64","shape":[4294967296,4294967296],"data_offsets":[0,12]}}"#, 12, "a", "Invalid SafeTensors file: Tensor data too small: 12 bytes (expected more than 18446744073709551615)");
    let data = file_with("{oops", &[]);
    let msg = locate_safetensors_tensor(&data, "a").unwrap_err().message();
    assert_eq!(msg, format!("Invalid SafeTensors file: Invalid JSON header: {}", serde_json::from_slice::<serde_json::Value>(b"{oops").unwrap_err()));
    assert!(matches!(locate_safetensors_tensor(&[1, 2, 3], "a"), Err(ModelError::FileTooSmall(3))));
    let mut lying = 100u64.to_le_bytes().to_vec();
    lying.extend_from_slice(b"{}");
    assert_eq!(
        locate_safetensors_tensor(&lying, "a").unwrap_err().message(),
        "Invalid SafeTensors file: Header length 100 is invalid for file size 10"
    );
    let zero = 0u64.to_le_bytes().to_vec();
    assert_eq!(
        parse_header(&zero).unwrap_err().message(),
        "Invalid SafeTensors file: Header length 0 is invalid for file size 8"
    );
}

#[test]
fn element_types_are_mapped() {
    assert_eq!(safetensors_dtype("F32").unwrap(), (ElementKind::F32, 4));
    assert_eq!(safetensors_dtype("BF16").unwrap(), (ElementKind::BF16, 2));
    assert_eq!(safetensors_dtype("F16").unwrap(), (ElementKind::F16, 2));
    assert_eq!(safetensors_dtype("F64").unwrap(), (ElementKind::F64, 8));
    assert_eq!(safetensors_dtype("I64").unwrap(), (ElementKind::I64, 8));
    assert_eq!(safetensors_dtype("I32").unwrap(), (ElementKind::I32, 4));
    assert_eq!(safetensors_dtype("I16").unwrap(), (ElementKind::I16, 2));
    assert_eq!(safetensors_dtype("I8").unwrap(), (ElementKind::I8, 1));
    assert_eq!(safetensors_dtype("U8").unwrap(), (ElementKind::U8, 1));
    assert_eq!(safetensors_dtype("BOOL").unwrap(), (ElementKind::Bool, 1));
    assert!(safetensors_dtype("f32").is_err());
}

#[test]
fn file_is_summarised() {
    let header = r#"{"model.layers.1.mlp.w":{"dtype":"BF16","shape":[2,3],"data_offsets":[0,12]},"model.layers.0.attn.w":{"dtype":"BF16","shape":[4],"data_offsets":[12,20]},"lm_head":{"dtype":"F32","shape":[],"data_offsets":[20,24]},"weird":7,"__metadata__":{"model_type":"mistral","n":3}}"#;
    let data = file_with(header, &[0u8; 24]);
    let info = parse(&data, "m.safetensors".to_string(), "/d/m.safetensors".to_string()).unwrap();
    assert_eq!(info.format, ModelFormat::SafeTensors);
    assert_eq!(info.file_size, data.len() as u64);
    assert_eq!(info.tensor_count, 3);
    assert_eq!(info.parameter_count, 10);
    assert_eq!(info.layer_count, Some(2));
    assert_eq!(info.quantization.as_deref(), Some("BF16"));
    assert_eq!(info.architecture.as_deref(), Some("mistral"));
    let names: Vec<&str> = info.all_tensors.iter().map(|t| t.name.as_str()).collect();
    assert_eq!(names, vec!["lm_head", "model.layers.0.attn.w", "model.layers.1.mlp.w"]);
    assert_eq!(info.all_tensors[2].shape, vec![2u64, 3]);
    assert_eq!(
        info.metadata,
        vec![("model_type".to_string(), "mistral".to_string()), ("n".to_string(), String::new())]
    );
    assert!(parse(&[0u8; 4], "a".into(), "b".into()).is_err());
}

#[test]
fn directory_is_summarised() {
    let a = parse_header(&file_with(r#"{"z.weight":{"dtype":"F16","shape":[2],"data_offsets":[0,4]},"__metadata__":{"k":"first"}}"#, &[0u8; 4])).unwrap();
    let b = parse_header(&file_with(r#"{"a.weight":{"dtype":"F16","shape":[3],"data_offsets":[0,6]},"m.weight":{"dtype":"F32","shape":[1],"data_offsets":[6,10]},"__metadata__":{"k":"second","architecture":"meta"}}"#, &[0u8; 10])).unwrap();
    let sizes = a.file_size + b.file_size;
    let config = parse_config_json(Some(br#"{"model_type":"llama","architectures":["LlamaForCausalLM"],"max_position_embeddings":4096,"hidden_size":64,"vocab_size":32000}"#));
    assert!(config.has_config);
    assert_eq!(config.architecture.as_deref(), Some("LlamaForCausalLM"));
    let info = parse_dir(vec![a.clone(), b.clone()], config, true, "dir".to_string(), "/m/dir".to_string()).unwrap();
    assert_eq!(info.file_size, sizes);
    assert_eq!(info.shard_count, Some(2));
    assert_eq!(info.has_tokenizer, Some(true));
    assert_eq!(info.has_config, Some(true));
    assert_eq!(info.model_type.as_deref(), Some("llama"));
    assert_eq!(info.architecture.as_deref(), Some("LlamaForCausalLM"));
    assert_eq!(info.context_length, Some(4096));
    assert_eq!(info.embedding_size, Some(64));
    assert_eq!(info.vocab_size, Some(32000));
    assert_eq!(info.tensor_count, 3);
    assert_eq!(info.parameter_count, 6);
    assert_eq!(info.quantization.as_deref(), Some("F16"));
    let names: Vec<&str> = info.all_tensors.iter().map(|t| t.name.as_str()).collect();
    assert_eq!(names, vec!["a.weight", "m.weight", "z.weight"]);
    assert_eq!(
        info.metadata,
        vec![("k".to_string(), "first".to_string()), ("architecture".to_string(), "meta".to_string())]
    );
    let absent = parse_config_json(None);
    assert!(!absent.has_config);
    let broken = parse_config_json(Some(b"{"));
    assert!(!broken.has_config && broken.model_type.is_none());
    let plain = parse_dir(vec![a, b], absent, false, "dir".to_string(), "/m/dir".to_string()).unwrap();
    assert_eq!(plain.architecture.as_deref(), Some("meta"));
    assert_eq!(plain.has_config, Some(false));
    let none = parse_dir(vec![], broken, false, "dir".to_string(), "/m/dir".to_string()).unwrap_err();
    assert_eq!(none.message(), "Invalid SafeTensors file: No .safetensors files found in directory");
}

#[test]
fn written_safetensors_header_reads_back() {
    let tensors = vec![
        OutputTensorInfo { name: "blk.0.w".to_string(), shape: vec![2, 3], f32_byte_size: 24, data_offset: 0 },
        OutputTensorInfo { name: "scalar".to_string(), shape: vec![], f32_byte_size: 4, data_offset: 24 },
        OutputTensorInfo { name: "blk.1.w".to_string(), shape: vec![4], f32_byte_size: 16, data_offset: 28 },
    ];
    let mut file = safetensors_header(&tensors);
    let header_len = u64::from_le_bytes(file[..8].try_into().unwrap()) as usize;
    assert_eq!(file.len(), 8 + header_len);
    assert_eq!(
        std::str::from_utf8(&file[8..]).unwrap(),
        r#"{"blk.0.w":{"dtype":"F32","shape":[2,3],"data_offsets":[0,24]},"scalar":{"dtype":"F32","shape":[],"data_offsets":[24,28]},"blk.1.w":{"dtype":"F32","shape":[4],"data_offsets":[28,44]},"__metadata__":{"format":"pt","source":"forgeai-merge"}}"#
    );
    let payload: Vec<u8> = (0..44u8).collect();
    file.extend_from_slice(&payload);
    let header = parse_header(&file).unwrap();
    let mut names: Vec<(String, Vec<u64>, String)> =
        header.tensors.iter().map(|t| (t.name.clone(), t.shape.clone(), t.dtype.clone())).collect();
    names.sort();
    assert_eq!(
        names,
        vec![
            ("blk.0.w".to_string(), vec![2u64, 3], "F32".to_string()),
            ("blk.1.w".to_string(), vec![4u64], "F32".to_string()),
            ("scalar".to_string(), vec![], "F32".to_string()),
        ]
    );
    assert_eq!(header.metadata, vec![("format".to_string(), "pt".to_string()), ("source".to_string(), "forgeai-merge".to_string())]);
    for t in &tensors {
        let s = locate_safetensors_tensor(&file, &t.name).unwrap();
        assert_eq!(s.kind, ElementKind::F32);
        assert_eq!(s.shape, t.shape);
        let from = t.data_offset as usize;
        let to = from + t.f32_byte_size as usize;
        assert_eq!(&file[s.start..s.end], &payload[from..to]);
    }
}

fn info(format: ModelFormat) -> ModelInfo {
    ModelInfo {
        file_name: "m".to_string(),
        file_path: "/m".to_string(),
        file_size: 0,
        file_size_display: String::new(),
        format,
        tensor_count: 0,
        parameter_count: 0,
        parameter_count_display: String::new(),
        layer_count: None,
        quantization: None,
        architecture: None,
        context_length: None,
        embedding_size: None,
        metadata: vec![],
        tensor_preview: vec![],
        all_tensors: vec![model_merge::model::TensorInfo { name: "t".into(), dtype: "F32".into(), shape: vec![1] }],
        shard_count: None,
        has_tokenizer: None,
        has_config: None,
        model_type: None,
        vocab_size: None,
    }
}

#[test]
fn parents_are_routed_to_their_readers() {
    let mut reg = ParentRegistry::new();
    let a = reg.add(info(ModelFormat::SafeTensors), 0, false).unwrap();
    let b = reg.add(info(ModelFormat::SafeTensors), 1, true).unwrap();
    let c = reg.add(info(ModelFormat::Gguf), 2, false).unwrap();
    assert_eq!(load_route(&a), LoadRoute::SafeTensorsFile);
    assert_eq!(load_route(&b), LoadRoute::SafeTensorsShards);
    assert_eq!(load_route(&c), LoadRoute::GgufFile);
    assert_eq!(get_tensor_names(&a), vec!["t".to_string()]);
    assert!(matches!(after_shard(Ok::<u8, ModelError>(7)), ShardStep::Found(7)));
    assert!(matches!(
        after_shard(Err::<u8, ModelError>(ModelError::TensorNotFound { tensor_name: "t".into(), parent_id: String::new() })),
        ShardStep::TryNext
    ));
    assert!(matches!(after_shard(Err::<u8, ModelError>(ModelError::MergeCancelled)), ShardStep::Fail(ModelError::MergeCancelled)));
    assert_eq!(not_in_any_shard("t", "/dir").message(), "Tensor not found: t in parent /dir");
}
