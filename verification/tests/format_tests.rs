use tls_tunnel::format::{format_bytes, format_duration, format_duration_padded};

#[test]
fn test_format_duration() {
    assert_eq!(format_duration(30), "30s");
    assert_eq!(format_duration(90), "1m 30s");
    assert_eq!(format_duration(3661), "1h 1m");
    assert_eq!(format_duration(86400), "1d 0h");
    assert_eq!(format_duration(90000), "1d 1h");
}

#[test]
fn test_format_bytes() {
    assert_eq!(format_bytes(512), "512 B");
    assert_eq!(format_bytes(1024), "1.00 KB");
    assert_eq!(format_bytes(1048576), "1.00 MB");
    assert_eq!(format_bytes(1073741824), "1.00 GB");
    assert_eq!(format_bytes(1099511627776), "1.00 TB");
}

#[test]
fn format_bytes_matches_float_formatting() {
    let samples: [u64; 12] = [
        0,
        1023,
        1536,
        1025,
        10_240_000,
        123_456_789,
        (1u64 << 20) - 1,
        5_000_000_000,
        (1u64 << 53) + 1,
        (1u64 << 60) + 12345,
        u64::MAX,
        1_099_511_627_776 * 3 / 2,
    ];
    for b in samples {
        let expected = {
            let kb = 1024u64;
            let mb = kb * 1024;
            let gb = mb * 1024;
            let tb = gb * 1024;
            if b >= tb {
                format!("{:.2} TB", b as f64 / tb as f64)
            } else if b >= gb {
                format!("{:.2} GB", b as f64 / gb as f64)
            } else if b >= mb {
                format!("{:.2} MB", b as f64 / mb as f64)
            } else if b >= kb {
                format!("{:.2} KB", b as f64 / kb as f64)
            } else {
                format!("{} B", b)
            }
        };
        assert_eq!(format_bytes(b), expected, "bytes = {}", b);
    }
}

#[test]
fn format_duration_edges() {
    assert_eq!(format_duration(0), "0s");
    assert_eq!(format_duration(60), "1m 0s");
    assert_eq!(format_duration(3600), "1h 0m");
    assert_eq!(format_duration(u64::MAX), format!("{}d {}h", u64::MAX / 86400, (u64::MAX % 86400) / 3600));
}

#[test]
fn padded_duration_for_the_dashboard() {
    assert_eq!(format_duration_padded(5), "5s");
    assert_eq!(format_duration_padded(65), "1m 05s");
    assert_eq!(format_duration_padded(3661), "1h 01m");
    assert_eq!(format_duration_padded(86400), "1d 00h");
    assert_eq!(format_duration_padded(90000 + 36000), "1d 11h");
    for s in [0u64, 59, 60, 600, 3599, 3600, 7260, 86399, 200000] {
        let d = s / 86400;
        let h = (s % 86400) / 3600;
        let m = (s % 3600) / 60;
        let x = s % 60;
        let expected = if d > 0 {
            format!("{}d {:02}h", d, h)
        } else if h > 0 {
            format!("{}h {:02}m", h, m)
        } else if m > 0 {
            format!("{}m {:02}s", m, x)
        } else {
            format!("{}s", x)
        };
        assert_eq!(format_duration_padded(s), expected);
    }
}
