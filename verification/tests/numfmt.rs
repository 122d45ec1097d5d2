use model_merge::numfmt::{format_bytes, format_file_size, format_param_count};

fn float_file_size(bytes: u64) -> String {
    const GB: f64 = 1_073_741_824.0;
    const MB: f64 = 1_048_576.0;
    const KB: f64 = 1_024.0;
    let b = bytes as f64;
    if b >= GB {
        format!("{:.2} GB", b / GB)
    } else if b >= MB {
        format!("{:.2} MB", b / MB)
    } else if b >= KB {
        format!("{:.2} KB", b / KB)
    } else {
        format!("{} B", bytes)
    }
}

fn float_param_count(count: u64) -> String {
    const B: f64 = 1_000_000_000.0;
    const M: f64 = 1_000_000.0;
    const K: f64 = 1_000.0;
    let c = count as f64;
    if c >= B {
        format!("{:.2}B", c / B)
    } else if c >= M {
        format!("{:.2}M", c / M)
    } else if c >= K {
        format!("{:.1}K", c / K)
    } else {
        format!("{}", count)
    }
}

fn samples() -> Vec<u64> {
    let mut v: Vec<u64> = vec![
        0, 1, 9, 10, 999, 1000, 1001, 1023, 1024, 1025, 1049, 1050, 1051, 1499, 1500, 1536,
        5120, 5125, 999_949, 999_950, 999_999, 1_000_000, 1_004_999, 1_005_000, 1_005_001,
        1_015_000, 1_025_000, 1_048_575, 1_048_576, 1_048_577, 999_999_999, 1_000_000_000,
        1_005_000_000, 1_015_000_000, 1_025_000_000, 1_073_741_823, 1_073_741_824,
        1_207_959_552, 7_241_732_096, 123_456_789_012, u32::MAX as u64,
        (1u64 << 53) - 1, 1u64 << 53, (1u64 << 53) + 1, (1u64 << 53) + 2, (1u64 << 53) + 3,
        (1u64 << 60) + 12345, (1u64 << 63) - 1, 1u64 << 63, (1u64 << 63) + 1025, u64::MAX - 1,
        u64::MAX,
    ];
    // Values around the ties of two decimals, and a spread of others.
    let mut x: u64 = 12345;
    for _ in 0..4000 {
        x = x.wrapping_mul(6364136223846793005).wrapping_add(1442695040888963407);
        v.push(x);
        v.push(x >> 11);
        v.push(x >> 24);
        v.push(x >> 33);
        v.push(x >> 44);
        v.push(x >> 53);
    }
    for k in 0..2000u64 {
        v.push(1_000_000 + k * 5_000);
        v.push(1_000_000_000 + k * 5_000_000);
        v.push(1_000 + k * 50);
        v.push((1u64 << 27) * (2 * k + 1));
        v.push((1u64 << 17) * (2 * k + 1));
        v.push(8 * (2 * k + 1));
    }
    v
}

#[test]
fn file_sizes_match_double_precision_formatting() {
    for n in samples() {
        assert_eq!(format_file_size(n), float_file_size(n), "for {}", n);
    }
}

#[test]
fn param_counts_match_double_precision_formatting() {
    for n in samples() {
        assert_eq!(format_param_count(n), float_param_count(n), "for {}", n);
    }
}

#[test]
fn known_texts() {
    assert_eq!(format_file_size(0), "0 B");
    assert_eq!(format_file_size(1023), "1023 B");
    assert_eq!(format_file_size(1024), "1.00 KB");
    assert_eq!(format_file_size(1536), "1.50 KB");
    assert_eq!(format_file_size(1_048_576), "1.00 MB");
    assert_eq!(format_file_size(1_610_612_736), "1.50 GB");
    assert_eq!(format_bytes(1_610_612_736), "1.50 GB");
    assert_eq!(format_param_count(999), "999");
    assert_eq!(format_param_count(1_500), "1.5K");
    assert_eq!(format_param_count(125_000_000), "125.00M");
    assert_eq!(format_param_count(7_240_000_000), "7.24B");
}
