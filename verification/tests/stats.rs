use openvpn3_gui_rs::stats::{format_bytes, format_duration};

#[test]
fn test_format_duration_sub_minute() {
    assert_eq!(format_duration(0), "0s");
    assert_eq!(format_duration(45), "45s");
}

#[test]
fn test_format_duration_minutes() {
    assert_eq!(format_duration(60), "1m 0s");
    assert_eq!(format_duration(125), "2m 5s");
}

#[test]
fn test_format_duration_hours() {
    assert_eq!(format_duration(3600), "1h 0m 0s");
    assert_eq!(format_duration(3725), "1h 2m 5s");
}

#[test]
fn test_format_bytes_units() {
    assert_eq!(format_bytes(0), "0 B");
    assert_eq!(format_bytes(512), "512 B");
    assert_eq!(format_bytes(2048), "2.0 KB");
    assert_eq!(format_bytes(5 * 1024 * 1024), "5.0 MB");
    assert_eq!(format_bytes(3 * 1024 * 1024 * 1024), "3.0 GB");
}

fn by_division(bytes: u64) -> String {
    if bytes < 1024 {
        format!("{} B", bytes)
    } else if bytes < 1024 * 1024 {
        format!("{:.1} KB", bytes as f64 / 1024.0)
    } else if bytes < 1024 * 1024 * 1024 {
        format!("{:.1} MB", bytes as f64 / (1024.0 * 1024.0))
    } else {
        format!("{:.1} GB", bytes as f64 / (1024.0 * 1024.0 * 1024.0))
    }
}

#[test]
fn bytes_are_rounded_like_a_division_in_double_precision() {
    for bytes in 0..200_000u64 {
        assert_eq!(format_bytes(bytes), by_division(bytes));
    }
    for odd in 0..2_000u64 {
        let tie = (2 * odd + 1) << 28;
        for bytes in [tie - 1, tie, tie + 1, (2 * odd + 1) << 18, (2 * odd + 1) << 8] {
            assert_eq!(format_bytes(bytes), by_division(bytes));
        }
    }
    for shift in 50..64 {
        for offset in 0..4_000u64 {
            let up = (1u64 << shift).wrapping_add(offset);
            let down = (1u64 << shift).wrapping_sub(offset);
            let tie = (5u64 << (shift - 3)).wrapping_add(offset);
            for bytes in [up, down, tie, u64::MAX - offset, u64::MAX / 20 * 3 + offset] {
                assert_eq!(format_bytes(bytes), by_division(bytes));
            }
        }
    }
}
