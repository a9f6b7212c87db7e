use cloudreve_desktop::drive_types::format_bytes;

#[test]
fn small_counts_as_bytes() {
    assert_eq!(format_bytes(0), "0 B");
    assert_eq!(format_bytes(512), "512 B");
}

#[test]
fn kb_mb_gb_tb() {
    assert_eq!(format_bytes(1024), "1.0 KB");
    assert_eq!(format_bytes(1024 * 1024), "1.0 MB");
    assert_eq!(format_bytes(1024_i64.pow(3)), "1.0 GB");
    assert_eq!(format_bytes(1024_i64.pow(4)), "1.0 TB");
}

fn reference(bytes: i64) -> String {
    const KB: f64 = 1024.0;
    const MB: f64 = KB * 1024.0;
    const GB: f64 = MB * 1024.0;
    const TB: f64 = GB * 1024.0;
    let b = bytes as f64;
    if b >= TB {
        format!("{:.1} TB", b / TB)
    } else if b >= GB {
        format!("{:.1} GB", b / GB)
    } else if b >= MB {
        format!("{:.1} MB", b / MB)
    } else if b >= KB {
        format!("{:.1} KB", b / KB)
    } else {
        format!("{} B", bytes)
    }
}

#[test]
fn format_bytes_rounding_and_edges() {
    assert_eq!(format_bytes(1023), "1023 B");
    assert_eq!(format_bytes(-5), "-5 B");
    assert_eq!(format_bytes(1536), "1.5 KB");
    assert_eq!(format_bytes(1126), "1.1 KB");
    assert_eq!(format_bytes(1075), "1.0 KB");
    assert_eq!(format_bytes(1024 * 1024 - 1), "1024.0 KB");
    assert_eq!(format_bytes(5 * 1024_i64.pow(4) + 1), "5.0 TB");
}

#[test]
fn format_bytes_matches_float_formatting() {
    let samples: [i64; 12] = [
        0,
        1,
        1000,
        1024,
        1127,
        10_000,
        123_456_789,
        1_048_575,
        9_999_999_999,
        1_099_511_627_776 * 3 / 2,
        i64::MAX,
        (1i64 << 53) + 1,
    ];
    for s in samples {
        assert_eq!(format_bytes(s), reference(s), "bytes = {}", s);
    }
    let mut x: i64 = 1;
    while x < i64::MAX / 3 {
        assert_eq!(format_bytes(x), reference(x), "bytes = {}", x);
        x = x * 3 + 7;
    }
}
