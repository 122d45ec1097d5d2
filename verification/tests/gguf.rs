use model_merge::error::ModelError;
use model_merge::gguf::{read_value, GgufValue, Reader};
use model_merge::gguf_file::{data_offset, parse};
use model_merge::gguf_info::{ggml_type_name, gguf_file_type_name, summarize};
use model_merge::gguf_write::{
    extract_gguf_metadata, gguf_header, gguf_header_from_source, GgufMetaValue,
};
use model_merge::model::ModelFormat;
use model_merge::precompute::OutputTensorInfo;
use model_merge::tensor_io::{locate_gguf_tensor, GgmlEncoding};

fn put_str(out: &mut Vec<u8>, s: &str) {
    out.extend_from_slice(&(s.len() as u64).to_le_bytes());
    out.extend_from_slice(s.as_bytes());
}

fn kv_u32(out: &mut Vec<u8>, key: &str, v: u32) {
    put_str(out, key);
    out.extend_from_slice(&4u32.to_le_bytes());
    out.extend_from_slice(&v.to_le_bytes());
}

fn kv_str(out: &mut Vec<u8>, key: &str, v: &str) {
    put_str(out, key);
    out.extend_from_slice(&8u32.to_le_bytes());
    put_str(out, v);
}

fn tensor(out: &mut Vec<u8>, name: &str, dims: &[u64], ty: u32, offset: u64) {
    put_str(out, name);
    out.extend_from_slice(&(dims.len() as u32).to_le_bytes());
    for d in dims {
        out.extend_from_slice(&d.to_le_bytes());
    }
    out.extend_from_slice(&ty.to_le_bytes());
    out.extend_from_slice(&offset.to_le_bytes());
}

fn sample_file() -> Vec<u8> {
    let mut f: Vec<u8> = Vec::new();
    f.extend_from_slice(b"GGUF");
    f.extend_from_slice(&3u32.to_le_bytes());
    f.extend_from_slice(&3u64.to_le_bytes());
    f.extend_from_slice(&8u64.to_le_bytes());
    kv_str(&mut f, "general.architecture", "llama");
    kv_u32(&mut f, "llama.context_length", 4096);
    kv_u32(&mut f, "llama.embedding_length", 64);
    kv_u32(&mut f, "general.file_type", 2);
    // A float: 10000.0
    put_str(&mut f, "llama.rope.freq_base");
    f.extend_from_slice(&6u32.to_le_bytes());
    f.extend_from_slice(&10000.0f32.to_bits().to_le_bytes());
    // An array of strings.
    put_str(&mut f, "tokenizer.ggml.tokens");
    f.extend_from_slice(&9u32.to_le_bytes());
    f.extend_from_slice(&8u32.to_le_bytes());
    f.extend_from_slice(&3u64.to_le_bytes());
    put_str(&mut f, "<s>");
    put_str(&mut f, "</s>");
    put_str(&mut f, "hello");
    kv_u32(&mut f, "tokenizer.ggml.bos_token_id", 0);
    // A signed value and a later duplicate key.
    put_str(&mut f, "llama.context_length");
    f.extend_from_slice(&5u32.to_le_bytes());
    f.extend_from_slice(&(8192i32).to_le_bytes());
    tensor(&mut f, "output.weight", &[4, 8], 0, 64);
    tensor(&mut f, "blk.1.attn_q.weight", &[32], 2, 0);
    tensor(&mut f, "blk.0.attn_q.weight", &[2, 2], 1, 32);
    let header_end = f.len();
    while f.len() % 32 != 0 {
        f.push(0);
    }
    assert!(f.len() >= header_end);
    f.extend_from_slice(&[0u8; 64 + 128]);
    f
}

#[test]
fn header_is_parsed() {
    let data = sample_file();
    let file = parse(&data).unwrap();
    assert_eq!(file.version, 3);
    assert_eq!(file.tensor_count, 3);
    assert_eq!(file.metadata_count, 8);
    assert_eq!(file.metadata.len(), 8);
    assert_eq!(file.metadata[0].0, "general.architecture");
    assert!(matches!(&file.metadata[0].1, GgufValue::String(s) if s == "llama"));
    assert!(matches!(&file.metadata[4].1, GgufValue::Float32(b) if *b == 10000.0f32.to_bits()));
    match &file.metadata[5].1 {
        GgufValue::Array(items) => {
            assert_eq!(items.len(), 3);
            assert!(matches!(&items[2], GgufValue::String(s) if s == "hello"));
        }
        other => panic!("unexpected {:?}", other),
    }
    assert!(matches!(&file.metadata[7].1, GgufValue::Int32(8192)));
    assert_eq!(file.tensors.len(), 3);
    assert_eq!(file.tensors[0].name, "output.weight");
    assert_eq!(file.tensors[0].shape, vec![4u64, 8]);
    assert_eq!(file.tensors[1].ggml_type, 2);
    assert_eq!(file.tensors[2].offset, 32);
    assert_eq!(file.metadata_start, 24);
    assert!(file.metadata_end < file.header_end);
    assert_eq!(data_offset(file.header_end), Some((file.header_end + 31) / 32 * 32));
    assert_eq!(data_offset(64), Some(64));
    assert_eq!(data_offset(usize::MAX), None);
}

#[test]
fn summary_reads_the_metadata() {
    let data = sample_file();
    let file = parse(&data).unwrap();
    let mut floats = vec![String::new(); file.metadata.len()];
    floats[4] = "10000".to_string();
    let info = summarize(&file, &floats, "m.gguf".to_string(), "/x/m.gguf".to_string(), data.len() as u64);
    assert_eq!(info.file_name, "m.gguf");
    assert_eq!(info.format, ModelFormat::Gguf);
    assert_eq!(info.tensor_count, 3);
    assert_eq!(info.architecture.as_deref(), Some("llama"));
    // Of two entries of one key the last counts.
    assert_eq!(info.context_length, Some(8192));
    assert_eq!(info.embedding_size, Some(64));
    assert_eq!(info.quantization.as_deref(), Some("Q4_0"));
    assert_eq!(info.parameter_count, 32 + 32 + 4);
    assert_eq!(info.parameter_count_display, "68");
    // No block count: the layers are counted from the names.
    assert_eq!(info.layer_count, Some(2));
    let names: Vec<&str> = info.all_tensors.iter().map(|t| t.name.as_str()).collect();
    assert_eq!(names, vec!["blk.0.attn_q.weight", "blk.1.attn_q.weight", "output.weight"]);
    assert_eq!(info.all_tensors[0].dtype, "F16");
    assert_eq!(info.all_tensors[1].dtype, "Q4_0");
    assert_eq!(info.tensor_preview.len(), 3);
    let get = |k: &str| info.metadata.iter().find(|(key, _)| key == k).map(|(_, v)| v.as_str());
    assert_eq!(get("general.architecture"), Some("llama"));
    assert_eq!(get("llama.context_length"), Some("8192"));
    assert_eq!(get("llama.rope.freq_base"), Some("10000"));
    assert_eq!(get("tokenizer.ggml.tokens"), None);
    assert_eq!(get("tokenizer.ggml.tokens_count"), Some("3"));
    assert_eq!(get("tokenizer.ggml.bos_token_id_resolved"), Some("<s>"));
    assert_eq!(get("tokenizer.ggml.eos_token_id_resolved"), None);
    assert_eq!(info.metadata.iter().filter(|(k, _)| k == "llama.context_length").count(), 1);
}

#[test]
fn broken_files_are_refused() {
    assert!(matches!(parse(&[0u8; 10]), Err(ModelError::FileTooSmall(10))));
    let mut bad = sample_file();
    bad[0] = b'X';
    assert_eq!(
        parse(&bad).unwrap_err().message(),
        "Invalid GGUF file: Invalid magic bytes: [88, 71, 85, 70] (expected [71, 71, 85, 70])"
    );
    let mut v9 = sample_file();
    v9[4] = 9;
    assert_eq!(
        parse(&v9).unwrap_err().message(),
        "Invalid GGUF file: Unsupported GGUF version: 9 (supported: 2, 3)"
    );
    let data = sample_file();
    let cut = &data[..40];
    assert_eq!(
        parse(cut).unwrap_err().message(),
        "Invalid GGUF file: Unexpected end of file at offset 32 (need 20 bytes, have 8)"
    );
    // A string that claims to be longer than is reasonable.
    let mut long = Vec::new();
    long.extend_from_slice(b"GGUF");
    long.extend_from_slice(&3u32.to_le_bytes());
    long.extend_from_slice(&0u64.to_le_bytes());
    long.extend_from_slice(&1u64.to_le_bytes());
    long.extend_from_slice(&2_000_000u64.to_le_bytes());
    long.extend_from_slice(&[0u8; 16]);
    assert_eq!(
        parse(&long).unwrap_err().message(),
        "Invalid GGUF file: String length 2000000 is unreasonably large"
    );
    // An unknown type tag.
    let mut unknown = Vec::new();
    unknown.extend_from_slice(b"GGUF");
    unknown.extend_from_slice(&3u32.to_le_bytes());
    unknown.extend_from_slice(&0u64.to_le_bytes());
    unknown.extend_from_slice(&1u64.to_le_bytes());
    put_str(&mut unknown, "k");
    unknown.extend_from_slice(&77u32.to_le_bytes());
    unknown.extend_from_slice(&[0u8; 16]);
    assert_eq!(
        parse(&unknown).unwrap_err().message(),
        "Invalid GGUF file: Unknown metadata value type: 77"
    );
    // Invalid UTF-8 in a key.
    let mut utf = Vec::new();
    utf.extend_from_slice(b"GGUF");
    utf.extend_from_slice(&3u32.to_le_bytes());
    utf.extend_from_slice(&0u64.to_le_bytes());
    utf.extend_from_slice(&1u64.to_le_bytes());
    utf.extend_from_slice(&2u64.to_le_bytes());
    utf.extend_from_slice(&[0xFF, 0xFE]);
    utf.extend_from_slice(&[0u8; 16]);
    let msg = parse(&utf).unwrap_err().message();
    assert!(msg.starts_with("Invalid GGUF file: Invalid UTF-8 string: "), "{}", msg);
    assert_eq!(msg, format!("Invalid GGUF file: Invalid UTF-8 string: {}", String::from_utf8(vec![0xFF, 0xFE]).unwrap_err()));
}

#[test]
fn version_two_has_short_counts() {
    let mut f: Vec<u8> = Vec::new();
    f.extend_from_slice(b"GGUF");
    f.extend_from_slice(&2u32.to_le_bytes());
    f.extend_from_slice(&1u32.to_le_bytes());
    f.extend_from_slice(&1u32.to_le_bytes());
    kv_u32(&mut f, "general.file_type", 1);
    tensor(&mut f, "t", &[], 0, 0);
    f.extend_from_slice(&[0u8; 32]);
    let file = parse(&f).unwrap();
    assert_eq!(file.version, 2);
    assert_eq!(file.metadata_start, 16);
    assert_eq!(file.tensors[0].shape.len(), 0);
    let floats = vec![String::new()];
    let info = summarize(&file, &floats, "n".into(), "p".into(), 0);
    assert_eq!(info.parameter_count, 0);
    assert_eq!(info.quantization.as_deref(), Some("F16"));
    assert_eq!(info.file_size_display, "0 B");
    assert_eq!(info.architecture, None);
}

#[test]
fn values_are_read_by_type() {
    let bytes: Vec<u8> = vec![0xFF, 0xFE, 0xFF, 0x01, 0x00];
    let mut r = Reader::new(&bytes);
    assert!(matches!(read_value(&mut r, 1), Ok(GgufValue::Int8(-1))));
    assert!(matches!(read_value(&mut r, 3), Ok(GgufValue::Int16(-2))));
    assert!(matches!(read_value(&mut r, 7), Ok(GgufValue::Bool(true))));
    assert!(matches!(read_value(&mut r, 7), Ok(GgufValue::Bool(false))));
    assert_eq!(r.remaining(), 0);
    assert!(read_value(&mut r, 0).is_err());
    let big = u64::MAX.to_le_bytes();
    let mut r = Reader::new(&big);
    assert!(matches!(read_value(&mut r, 11), Ok(GgufValue::Int64(-1))));
    let mut r = Reader::new(&big);
    assert!(matches!(read_value(&mut r, 12), Ok(GgufValue::Float64(u64::MAX))));
    assert_eq!(GgufValue::Int32(-17).as_string().as_deref(), Some("-17"));
    assert_eq!(GgufValue::Int64(i64::MIN).as_string().as_deref(), Some("-9223372036854775808"));
    assert_eq!(GgufValue::Bool(true).as_string().as_deref(), Some("true"));
    assert_eq!(GgufValue::Float32(0).as_string(), None);
    assert_eq!(GgufValue::Float32(0).shown("0").as_deref(), Some("0"));
    assert_eq!(GgufValue::Int8(-1).as_u64(), None);
    assert_eq!(GgufValue::Int16(7).as_u64(), Some(7));
    assert_eq!(ggml_type_name(14), "Q6_K");
    assert_eq!(ggml_type_name(99), "UNKNOWN");
    assert_eq!(gguf_file_type_name(15), "Q4_K_M");
}

#[test]
fn nested_arrays_are_read() {
    // An array of two arrays of bytes.
    let mut b: Vec<u8> = Vec::new();
    b.extend_from_slice(&9u32.to_le_bytes());
    b.extend_from_slice(&2u64.to_le_bytes());
    b.extend_from_slice(&0u32.to_le_bytes());
    b.extend_from_slice(&2u64.to_le_bytes());
    b.extend_from_slice(&[7, 8]);
    b.extend_from_slice(&0u32.to_le_bytes());
    b.extend_from_slice(&0u64.to_le_bytes());
    let mut r = Reader::new(&b);
    match read_value(&mut r, 9).unwrap() {
        GgufValue::Array(outer) => {
            assert_eq!(outer.len(), 2);
            assert!(matches!(&outer[0], GgufValue::Array(inner) if inner.len() == 2 && matches!(inner[1], GgufValue::Uint8(8))));
            assert!(matches!(&outer[1], GgufValue::Array(inner) if inner.is_empty()));
        }
        other => panic!("unexpected {:?}", other),
    }
    assert_eq!(r.pos, b.len());
    let mut huge: Vec<u8> = Vec::new();
    huge.extend_from_slice(&0u32.to_le_bytes());
    huge.extend_from_slice(&10_000_001u64.to_le_bytes());
    let mut r = Reader::new(&huge);
    assert_eq!(
        read_value(&mut r, 9).unwrap_err().message(),
        "Invalid GGUF file: Array length 10000001 is unreasonably large"
    );
}

#[test]
fn tensors_are_located() {
    let data = sample_file();
    let file = parse(&data).unwrap();
    let start = (file.header_end + 31) / 32 * 32;
    let s = locate_gguf_tensor(&file, "output.weight", "/x/m.gguf", data.len()).unwrap();
    assert_eq!(s.encoding, GgmlEncoding::F32);
    assert_eq!(s.shape, vec![4usize, 8]);
    assert_eq!(s.elem_count, 32);
    assert_eq!(s.start, start + 64);
    assert_eq!(s.byte_count, 128);
    let q = locate_gguf_tensor(&file, "blk.1.attn_q.weight", "/x/m.gguf", data.len()).unwrap();
    assert_eq!(q.encoding, GgmlEncoding::Q4_0);
    assert_eq!(q.byte_count, 18);
    assert_eq!(q.start, start);
    let h = locate_gguf_tensor(&file, "blk.0.attn_q.weight", "/x/m.gguf", data.len()).unwrap();
    assert_eq!(h.encoding, GgmlEncoding::F16);
    assert_eq!(h.byte_count, 8);
    let err = locate_gguf_tensor(&file, "nope", "/x/m.gguf", data.len()).unwrap_err();
    assert_eq!(err.message(), "Tensor not found: nope in parent /x/m.gguf");
    let short = locate_gguf_tensor(&file, "output.weight", "/x/m.gguf", start + 100).unwrap_err();
    assert_eq!(
        short.message(),
        format!("Invalid GGUF file: Tensor data extends past file end: {} + 128 > {}", start + 64, start + 100)
    );
}

fn entry(name: &str, shape: &[usize], offset: u64) -> OutputTensorInfo {
    let bytes = shape.iter().product::<usize>() as u64 * 4;
    OutputTensorInfo { name: name.to_string(), shape: shape.to_vec(), f32_byte_size: bytes, data_offset: offset }
}

#[test]
fn written_header_parses_back() {
    let tensors = vec![entry("a.weight", &[2, 3], 0), entry("b", &[], 24), entry("c.bias", &[5], 28)];
    let metadata = vec![
        ("general.architecture".to_string(), GgufMetaValue::String("llama".to_string())),
        ("general.file_type".to_string(), GgufMetaValue::U32(0)),
        ("llama.rope.freq_base".to_string(), GgufMetaValue::F32(10000.0f32.to_bits())),
        ("tokenizer.ggml.tokens".to_string(), GgufMetaValue::StringArray(vec!["a".to_string(), "".to_string(), "é".to_string()])),
        ("tokenizer.ggml.scores".to_string(), GgufMetaValue::F32Array(vec![0, 1.5f32.to_bits()])),
        ("tokenizer.ggml.token_type".to_string(), GgufMetaValue::I32Array(vec![1, -3, 3])),
    ];
    let mut file_bytes = gguf_header(&tensors, &metadata);
    assert_eq!(file_bytes.len() % 32, 0);
    let header_len = file_bytes.len();
    file_bytes.extend_from_slice(&[0u8; 48]);
    let file = parse(&file_bytes).unwrap();
    assert_eq!(file.version, 3);
    assert_eq!(file.tensors.len(), 3);
    assert_eq!(file.metadata.len(), 6);
    assert_eq!((file.header_end + 31) / 32 * 32, header_len);
    for (t, e) in file.tensors.iter().zip(tensors.iter()) {
        assert_eq!(t.name, e.name);
        assert_eq!(t.shape, e.shape.iter().map(|d| *d as u64).collect::<Vec<u64>>());
        assert_eq!(t.ggml_type, 0);
        assert_eq!(t.offset, e.data_offset);
    }
    assert!(matches!(&file.metadata[2].1, GgufValue::Float32(b) if *b == 10000.0f32.to_bits()));
    match &file.metadata[3].1 {
        GgufValue::Array(items) => {
            assert!(matches!(&items[2], GgufValue::String(s) if s == "é"));
        }
        other => panic!("unexpected {:?}", other),
    }
    match &file.metadata[5].1 {
        GgufValue::Array(items) => assert!(matches!(items[1], GgufValue::Int32(-3))),
        other => panic!("unexpected {:?}", other),
    }
    let s = locate_gguf_tensor(&file, "c.bias", "out", file_bytes.len()).unwrap();
    assert_eq!(s.start, header_len + 28);
    assert_eq!(s.byte_count, 20);
}

#[test]
fn metadata_is_taken_over_as_it_stands() {
    let source = sample_file();
    let parsed = parse(&source).unwrap();
    let taken = extract_gguf_metadata(&source).unwrap();
    assert_eq!(taken.kv_count, 8);
    assert_eq!(taken.raw_kv_bytes, source[24..parsed.metadata_end].to_vec());
    let tensors = vec![entry("t", &[2], 0)];
    let mut out = gguf_header_from_source(&tensors, &taken);
    out.extend_from_slice(&[0u8; 8]);
    let back = parse(&out).unwrap();
    assert_eq!(back.metadata.len(), 8);
    assert_eq!(back.metadata[1].0, "llama.context_length");
    assert!(matches!(&back.metadata[1].1, GgufValue::Uint32(4096)));
    assert_eq!(back.tensors.len(), 1);
    assert_eq!(&out[24..24 + taken.raw_kv_bytes.len()], &taken.raw_kv_bytes[..]);
    assert!(extract_gguf_metadata(b"not a gguf file, but long enough").is_err());
}
