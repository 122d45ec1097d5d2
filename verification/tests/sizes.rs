use model_merge::gguf::Reader;
use model_merge::precompute::{compute_f32_byte_size, count_elements, times};

#[test]
fn products_fit_or_are_refused() {
    assert_eq!(times(0, u64::MAX), Some(0));
    assert_eq!(times(3, 7), Some(21));
    assert_eq!(times(1 << 32, 1 << 31), Some(1 << 63));
    assert_eq!(times(1 << 32, 1 << 32), None);
    assert_eq!(times(u64::MAX, 1), Some(u64::MAX));
    assert_eq!(times(u64::MAX, 2), None);
}

#[test]
fn elements_are_the_product_of_the_dimensions() {
    assert_eq!(count_elements(&[]), Some(1));
    assert_eq!(count_elements(&[7]), Some(7));
    assert_eq!(count_elements(&[2, 3, 4]), Some(24));
    assert_eq!(count_elements(&[5, 0, 9]), Some(0));
    assert_eq!(count_elements(&[usize::MAX, usize::MAX, 0]), Some(0));
    assert_eq!(count_elements(&[1 << 40, 1 << 40]), None);
}

#[test]
fn dense_tensors_take_four_bytes_per_element() {
    assert_eq!(compute_f32_byte_size(&[]), Some(4));
    assert_eq!(compute_f32_byte_size(&[4096, 4096]), Some(67_108_864));
    assert_eq!(compute_f32_byte_size(&[0, 12]), Some(0));
    assert_eq!(compute_f32_byte_size(&[1 << 62]), None);
    assert_eq!(compute_f32_byte_size(&[1 << 61]), Some(1 << 63));
}

#[test]
fn the_cursor_reads_numbers_lowest_byte_first() {
    let data = [0x01u8, 0xFE, 0xFF, 0x34, 0x12, 0xFF, 0xFF, 0xFF, 0xFF, 0x00, 0x02];
    let mut r = Reader::new(&data);
    assert_eq!(r.remaining(), 11);
    assert_eq!(r.read_u8().unwrap(), 1);
    assert_eq!(r.read_i16().unwrap(), -2);
    assert_eq!(r.read_u16().unwrap(), 0x1234);
    assert_eq!(r.read_i32().unwrap(), -1);
    assert!(!r.read_bool().unwrap());
    assert!(r.read_bool().unwrap());
    assert_eq!(r.remaining(), 0);
    assert_eq!(
        r.read_u8().unwrap_err().message(),
        "Invalid GGUF file: Unexpected end of file at offset 11 (need 1 bytes, have 0)"
    );
    assert_eq!(r.pos, 11);
}

#[test]
fn the_cursor_reads_wide_numbers_and_strings() {
    let mut data = Vec::new();
    data.extend_from_slice(&(-5i64).to_le_bytes());
    data.extend_from_slice(&0x0102_0304_0506_0708u64.to_le_bytes());
    data.push(0x80);
    data.extend_from_slice(&3u64.to_le_bytes());
    data.extend_from_slice("añ".as_bytes());
    data.extend_from_slice(&0xDEAD_BEEFu32.to_le_bytes());
    let mut r = Reader::new(&data);
    assert_eq!(r.read_i64().unwrap(), -5);
    assert_eq!(r.read_u64().unwrap(), 0x0102_0304_0506_0708);
    assert_eq!(r.read_i8().unwrap(), -128);
    assert_eq!(r.read_string().unwrap(), "añ");
    assert_eq!(r.read_bytes(2).unwrap(), &[0xEF, 0xBE]);
    assert_eq!(
        r.read_u32().unwrap_err().message(),
        format!(
            "Invalid GGUF file: Unexpected end of file at offset {} (need 4 bytes, have 2)",
            data.len() - 2
        )
    );
    assert_eq!(r.read_u16().unwrap(), 0xDEAD);
}

#[test]
fn strings_that_cannot_be_read_are_refused() {
    let mut data = Vec::new();
    data.extend_from_slice(&9u64.to_le_bytes());
    data.extend_from_slice(b"short");
    let mut r = Reader::new(&data);
    let err = r.read_string().unwrap_err().message();
    assert_eq!(err, "Invalid GGUF file: Unexpected end of file at offset 8 (need 9 bytes, have 5)");
    let mut long = Vec::new();
    long.extend_from_slice(&1_000_001u64.to_le_bytes());
    let mut r = Reader::new(&long);
    assert_eq!(
        r.read_string().unwrap_err().message(),
        "Invalid GGUF file: String length 1000001 is unreasonably large"
    );
}
