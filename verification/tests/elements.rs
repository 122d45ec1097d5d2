use model_merge::elements::{undecoded_error, whole_numbers};
use model_merge::tensor_io::{locate_safetensors_tensor, ElementKind};

#[test]
fn a_stored_integer_is_read_as_the_declared_type() {
    let header = r#"{"x":{"dtype":"I32","shape":[1],"data_offsets":[0,4]}}"#;
    let mut file = (header.len() as u64).to_le_bytes().to_vec();
    file.extend_from_slice(header.as_bytes());
    file.extend_from_slice(&[1, 0, 0, 0]);
    let slice = locate_safetensors_tensor(&file, "x").unwrap();
    assert_eq!(slice.kind, ElementKind::I32);
    assert_eq!(slice.elem_size, 4);
    assert_eq!(slice.shape, vec![1usize]);
    let values = whole_numbers(&file[slice.start..slice.end], slice.kind).unwrap();
    assert_eq!(values, vec![1i64]);
    assert_eq!(values[0] as f32, 1.0f32);
}

#[test]
fn signed_numbers_are_read_in_twos_complement() {
    let mut bytes = Vec::new();
    for v in [0i64, 1, -1, i64::MAX, i64::MIN, 1 << 40, -(1 << 40)] {
        bytes.extend_from_slice(&v.to_le_bytes());
    }
    assert_eq!(
        whole_numbers(&bytes, ElementKind::I64).unwrap(),
        vec![0i64, 1, -1, i64::MAX, i64::MIN, 1 << 40, -(1 << 40)]
    );
    let mut bytes = Vec::new();
    for v in [0i32, 7, -7, i32::MAX, i32::MIN] {
        bytes.extend_from_slice(&v.to_le_bytes());
    }
    assert_eq!(
        whole_numbers(&bytes, ElementKind::I32).unwrap(),
        vec![0i64, 7, -7, i32::MAX as i64, i32::MIN as i64]
    );
    let mut bytes = Vec::new();
    for v in [0i16, 300, -300, i16::MAX, i16::MIN] {
        bytes.extend_from_slice(&v.to_le_bytes());
    }
    assert_eq!(
        whole_numbers(&bytes, ElementKind::I16).unwrap(),
        vec![0i64, 300, -300, i16::MAX as i64, i16::MIN as i64]
    );
    assert_eq!(
        whole_numbers(&[0, 1, 127, 128, 255], ElementKind::I8).unwrap(),
        vec![0i64, 1, 127, -128, -1]
    );
}

#[test]
fn bytes_and_truth_values_are_read_one_by_one() {
    assert_eq!(whole_numbers(&[0, 1, 128, 255], ElementKind::U8).unwrap(), vec![0i64, 1, 128, 255]);
    assert_eq!(whole_numbers(&[0, 1, 2, 255], ElementKind::Bool).unwrap(), vec![0i64, 1, 1, 1]);
    assert_eq!(whole_numbers(&[], ElementKind::U8).unwrap(), Vec::<i64>::new());
}

#[test]
fn bytes_that_make_up_no_element_are_left_aside() {
    assert_eq!(whole_numbers(&[2, 0, 0, 0, 9, 9, 9], ElementKind::I32).unwrap(), vec![2i64]);
    assert_eq!(whole_numbers(&[1, 2, 3], ElementKind::I64).unwrap(), Vec::<i64>::new());
}

#[test]
fn floating_point_elements_are_not_whole_numbers() {
    for kind in [ElementKind::F32, ElementKind::F16, ElementKind::BF16, ElementKind::F64] {
        assert!(whole_numbers(&[0, 0, 0, 0, 0, 0, 0, 0], kind).is_none());
    }
}

#[test]
fn a_block_format_without_a_decoder_is_named_in_the_error() {
    assert_eq!(
        undecoded_error("blk.0.w", 12).message(),
        format!(
            "Invalid GGUF file: Tensor 'blk.0.w' is stored as {}, for which there is no decoder",
            model_merge::gguf_info::ggml_type_name(12)
        )
    );
}
