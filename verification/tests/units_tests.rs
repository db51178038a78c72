use lint_lang::units::format_bytes;

#[test]
fn formats_small_sizes_in_bytes() {
    assert_eq!(format_bytes(0), "0 B");
    assert_eq!(format_bytes(1023), "1023 B");
}

#[test]
fn rounds_ties_to_even_like_float_formatting() {
    // 1280 / 1024 = 1.25, which `{:.1}` prints as 1.2
    assert_eq!(format_bytes(1280), format!("{:.1} KB", 1280f64 / 1024.0));
    assert_eq!(format_bytes(1280), "1.2 KB");
    assert_eq!(format_bytes(1331), format!("{:.1} KB", 1331f64 / 1024.0));
}

#[test]
fn agrees_with_float_formatting_on_large_sizes() {
    for bytes in [
        5_000_000_000u64,
        u64::MAX,
        (1u64 << 53) + 1,
        (1u64 << 60) + 12345,
        1_099_511_627_776,
        1_099_511_627_775,
    ] {
        let mut size = bytes as f64;
        let mut unit = 0;
        let units = ["B", "KB", "MB", "GB", "TB"];
        while size >= 1024.0 && unit < 4 {
            size /= 1024.0;
            unit += 1;
        }
        let expected = if unit == 0 {
            format!("{bytes} B")
        } else {
            format!("{size:.1} {}", units[unit])
        };
        assert_eq!(format_bytes(bytes), expected);
    }
}
