use model_merge::output::{push_escaped, safetensors_header, safetensors_header_text};
use model_merge::precompute::OutputTensorInfo;
use model_merge::safetensors::parse_header;
use model_merge::tensor_io::locate_safetensors_tensor;

fn escaped(s: &str) -> String {
    let mut out = Vec::new();
    push_escaped(&mut out, s);
    out.into_iter().collect()
}

#[test]
fn plain_names_are_written_as_they_are() {
    for name in ["", "blk.0.attn_q.weight", "model.layers.3.mlp.up_proj.weight", "é日本 x/y"] {
        assert_eq!(escaped(name), name);
    }
}

#[test]
fn quotes_backslashes_and_control_characters_are_escaped() {
    assert_eq!(escaped("a\"b"), "a\\\"b");
    assert_eq!(escaped("a\\b"), "a\\\\b");
    assert_eq!(escaped("a\nb\tc"), "a\\u000ab\\u0009c");
    assert_eq!(escaped("\u{0}\u{1f}\u{20}"), "\\u0000\\u001f ");
    assert_eq!(escaped("\\\""), "\\\\\\\"");
}

#[test]
fn every_name_reads_back_from_the_written_header() {
    let names = [
        "plain",
        "with \"quotes\"",
        "back\\slash",
        "line\nbreak",
        "tab\tand\rreturn",
        "\u{1}\u{1f}",
        "\\u0041",
        "ends with backslash\\",
        "日本語 é \u{7f}",
    ];
    let mut tensors = Vec::new();
    for (i, name) in names.iter().enumerate() {
        tensors.push(OutputTensorInfo {
            name: name.to_string(),
            shape: vec![i + 1],
            f32_byte_size: 4 * (i as u64 + 1),
            data_offset: (0..i as u64).map(|k| 4 * (k + 1)).sum(),
        });
    }
    let total: u64 = tensors.iter().map(|t| t.f32_byte_size).sum();
    let text = safetensors_header_text(&tensors);
    let mut file = safetensors_header(&tensors);
    assert_eq!(&file[8..], text.as_bytes());
    file.extend(std::iter::repeat(0u8).take(total as usize));
    let header = parse_header(&file).unwrap();
    let mut read: Vec<(String, Vec<u64>, String)> =
        header.tensors.iter().map(|t| (t.name.clone(), t.shape.clone(), t.dtype.clone())).collect();
    read.sort();
    let mut written: Vec<(String, Vec<u64>, String)> = tensors
        .iter()
        .map(|t| (t.name.clone(), t.shape.iter().map(|d| *d as u64).collect(), "F32".to_string()))
        .collect();
    written.sort();
    assert_eq!(read, written);
    for t in &tensors {
        let slice = locate_safetensors_tensor(&file, &t.name).unwrap();
        assert_eq!(slice.shape, t.shape);
        assert_eq!(slice.start as u64, 8 + text.len() as u64 + t.data_offset);
        assert_eq!((slice.end - slice.start) as u64, t.f32_byte_size);
    }
}
