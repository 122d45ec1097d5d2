use model_merge::gguf_meta::{
    arch_key, arch_key_lower, build_gguf_metadata, float_settings, parse_tokenizer_for_gguf,
    read_optional_document, ConfigFloats,
};
use model_merge::gguf_write::GgufMetaValue;
use model_merge::json::{JsonNumber, JsonValue};
use model_merge::registry::CompatInfo;

fn doc(text: &str) -> JsonValue {
    read_optional_document(Some(text.as_bytes())).unwrap()
}

fn compat(arch: Option<&str>) -> CompatInfo {
    CompatInfo {
        architecture: arch.map(|a| a.to_string()),
        hidden_size: Some(4096),
        num_layers: Some(32),
        num_attention_heads: None,
        num_kv_heads: Some(8),
        vocab_size: Some(32000),
        context_length: Some(8192),
        tensor_metas: vec![],
    }
}

fn show(entries: &[(String, GgufMetaValue)]) -> Vec<String> {
    entries
        .iter()
        .map(|(k, v)| match v {
            GgufMetaValue::String(s) => format!("{}={:?}", k, s),
            GgufMetaValue::U32(x) => format!("{}={}", k, x),
            GgufMetaValue::F32(b) => format!("{}=f{}", k, f32::from_bits(*b)),
            GgufMetaValue::StringArray(a) => format!("{}={:?}", k, a),
            GgufMetaValue::F32Array(a) => format!("{}=f{:?}", k, a),
            GgufMetaValue::I32Array(a) => format!("{}=i{:?}", k, a),
        })
        .collect()
}

#[test]
fn architecture_names_are_normalised() {
    assert_eq!(arch_key("LlamaForCausalLM"), "llama");
    assert_eq!(arch_key("  Mistral "), "mistral");
    assert_eq!(arch_key("BertForSequenceClassification"), "bert");
    assert_eq!(arch_key("ForCausalLM"), "llama");
    assert_eq!(arch_key_lower("llamaforcausallm"), "llama");
    assert_eq!(arch_key_lower(" qwen2forsequenceclassification\t"), "qwen2");
    assert_eq!(arch_key_lower("LlamaForCausalLM"), "LlamaForCausalLM");
    assert_eq!(arch_key_lower(""), "llama");
    assert_eq!(arch_key(""), "llama");
    assert_eq!(arch_key("GPT 2\u{2003}"), "gpt 2");
    for raw in ["Qwen2ForCausalLM", " x ", "\tFALCON\n", "forcausallmforcausallm", "aforcausalforcausallmllm"] {
        let expected = raw.to_lowercase().replace("forcausallm", "").replace("forsequenceclassification", "").trim().to_string();
        let expected = if expected.is_empty() { "llama".to_string() } else { expected };
        assert_eq!(arch_key(raw), expected, "for {:?}", raw);
    }
}

#[test]
fn metadata_is_made_from_record_and_configuration() {
    let config = doc(r#"{"model_type":"ignored","intermediate_size":11008,"rope_theta":10000.0,"rms_norm_eps":1e-5,"max_position_embeddings":2048,"num_attention_heads":32,"num_key_value_heads":4,"num_hidden_layers":"many"}"#);
    let (theta, eps) = float_settings(&config);
    assert_eq!(theta, Some(JsonNumber::Float(10000.0f64.to_bits())));
    assert_eq!(eps, Some(JsonNumber::Float(1e-5f64.to_bits())));
    let floats = ConfigFloats { rope_theta: Some(10000.0f32.to_bits()), rms_norm_eps: Some(1e-5f32.to_bits()) };
    let c = compat(Some("LlamaForCausalLM"));
    let entries = build_gguf_metadata("merged", Some(&c), Some(&config), floats, None);
    assert_eq!(
        show(&entries),
        vec![
            "general.architecture=\"llama\"",
            "general.name=\"merged\"",
            "general.file_type=0",
            "llama.context_length=8192",
            "llama.embedding_length=4096",
            "llama.block_count=32",
            "llama.attention.head_count_kv=8",
            "llama.feed_forward_length=11008",
            "llama.rope.freq_base=f10000",
            "llama.attention.layer_norm_rms_epsilon=f0.00001",
            "llama.attention.head_count=32",
        ]
    );
    // Without a record the configuration decides.
    let entries = build_gguf_metadata("m", None, Some(&doc(r#"{"model_type":"Gemma","hidden_size":4294967298}"#)), ConfigFloats { rope_theta: None, rms_norm_eps: None }, Some(vec![("tokenizer.ggml.model".to_string(), GgufMetaValue::String("gpt2".to_string()))]));
    assert_eq!(
        show(&entries),
        vec![
            "general.architecture=\"gemma\"",
            "general.name=\"m\"",
            "general.file_type=0",
            "gemma.embedding_length=2",
            "tokenizer.ggml.model=\"gpt2\"",
        ]
    );
    let entries = build_gguf_metadata("m", Some(&compat(None)), None, ConfigFloats { rope_theta: Some(1), rms_norm_eps: None }, None);
    assert_eq!(show(&entries)[0], "general.architecture=\"llama\"");
    assert_eq!(entries.len(), 7);
    let whole = doc(r#"{"rope_theta":500000,"rms_norm_eps":"x"}"#);
    assert_eq!(float_settings(&whole), (Some(JsonNumber::PosInt(500000)), None));
    assert!(read_optional_document(None).is_none());
    assert!(read_optional_document(Some(b"nope")).is_none());
}

#[test]
fn tokenizer_is_laid_out_by_id() {
    let tokenizer = doc(r#"{
        "model": {"type": "BPE", "vocab": {"hello": 3, "<s>": 0, "world": 5, "dup": 3, "skip": "x", "</s>": 1},
                  "merges": ["h e", 7, "l l"]},
        "added_tokens": [{"id": 0, "content": "<s>", "special": true}, {"id": 7, "content": "<pad>", "special": true},
                         {"id": 5, "content": "other"}, {"content": "zero"}]
    }"#);
    let config = doc(r#"{"bos_token": "<s>", "eos_token": {"content": "</s>"}}"#);
    let entries = parse_tokenizer_for_gguf(&tokenizer, Some(&config)).unwrap();
    assert_eq!(
        show(&entries),
        vec![
            "tokenizer.ggml.model=\"gpt2\"".to_string(),
            "tokenizer.ggml.tokens=[\"<s>\", \"</s>\", \"\", \"hello\", \"\", \"world\", \"\", \"<pad>\"]".to_string(),
            "tokenizer.ggml.scores=f[0, 0, 0, 0, 0, 0, 0, 0]".to_string(),
            "tokenizer.ggml.token_type=i[1, 1, 1, 1, 1, 1, 1, 3]".to_string(),
            "tokenizer.ggml.bos_token_id=0".to_string(),
            "tokenizer.ggml.eos_token_id=1".to_string(),
            "tokenizer.ggml.merges=[\"h e\", \"l l\"]".to_string(),
        ]
    );
}

#[test]
fn tokenizer_matches_a_sorting_implementation() {
    let text = r#"{
        "model": {"type": "Unigram", "vocab": {"c": 2, "a": 9, "b": 2, "d": 0, "e": 4294967297}},
        "added_tokens": [{"id": 2, "content": "x", "special": true}, {"id": 4, "content": "a", "special": false}]
    }"#;
    let entries = parse_tokenizer_for_gguf(&doc(text), Some(&doc(r#"{"bos_token":"a","eos_token":"none"}"#))).unwrap();
    // The same by sorting the tokens by id and filling in that order.
    let v: serde_json::Value = serde_json::from_str(text).unwrap();
    let mut list: Vec<(u32, String, bool)> = Vec::new();
    for (token, id) in v["model"]["vocab"].as_object().unwrap() {
        list.push((id.as_u64().unwrap() as u32, token.clone(), false));
    }
    for e in v["added_tokens"].as_array().unwrap() {
        let id = e["id"].as_u64().unwrap_or(0) as u32;
        let special = e["special"].as_bool().unwrap_or(false);
        if let Some(existing) = list.iter_mut().find(|(t, _, _)| *t == id) {
            existing.2 = special;
        } else {
            list.push((id, e["content"].as_str().unwrap_or("").to_string(), special));
        }
    }
    list.sort_by_key(|(id, _, _)| *id);
    let size = list.last().map(|(id, _, _)| *id + 1).unwrap_or(0) as usize;
    let mut tokens = vec![String::new(); size];
    let mut types = vec![1i32; size];
    for (id, token, special) in &list {
        tokens[*id as usize] = token.clone();
        if *special {
            types[*id as usize] = 3;
        }
    }
    let bos = list.iter().find(|(_, t, _)| t == "a").map(|(id, _, _)| *id);
    assert_eq!(bos, Some(4));
    assert!(matches!(&entries[0].1, GgufMetaValue::String(s) if s == "llama"));
    assert!(matches!(&entries[1].1, GgufMetaValue::StringArray(a) if *a == tokens));
    assert!(matches!(&entries[3].1, GgufMetaValue::I32Array(a) if *a == types));
    assert!(matches!(&entries[4], (k, GgufMetaValue::U32(4)) if k == "tokenizer.ggml.bos_token_id"));
    assert_eq!(entries.len(), 5);
}

#[test]
fn tokenizer_without_vocabulary_gives_nothing() {
    assert!(parse_tokenizer_for_gguf(&doc(r#"{"added_tokens":[]}"#), None).is_none());
    assert!(parse_tokenizer_for_gguf(&doc(r#"{"model":{"type":"BPE","vocab":[1,2]}}"#), None).is_none());
    let empty = parse_tokenizer_for_gguf(&doc(r#"{"model":{"type":"WordPiece","vocab":{}}}"#), None).unwrap();
    assert_eq!(
        show(&empty),
        vec![
            "tokenizer.ggml.model=\"bert\"".to_string(),
            "tokenizer.ggml.tokens=[]".to_string(),
            "tokenizer.ggml.scores=f[]".to_string(),
            "tokenizer.ggml.token_type=i[]".to_string(),
        ]
    );
}
