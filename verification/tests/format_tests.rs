use anvel::format::format_size;
use anvel::format::format_time;
use anvel::format::item_count_label;
use anvel::format::share_link;
use anvel::hash::fnv_hash;
use anvel::text::decimal_string;
use anvel::text::hex16_string;

/// The size label as the explorer computed it with floating point.
fn size_with_floats(bytes: u64) -> String {
    const UNITS: &[&str] = &["B", "KB", "MB", "GB", "TB"];
    let mut size = bytes as f64;
    let mut ui = 0usize;
    while size >= 1024.0 && ui < UNITS.len() - 1 {
        size /= 1024.0;
        ui += 1;
    }
    if ui == 0 {
        format!("{} {}", size as u64, UNITS[ui])
    } else {
        format!("{:.2} {}", size, UNITS[ui])
    }
}

#[test]
fn format_size_small_values() {
    assert_eq!(format_size(0), "0 B");
    assert_eq!(format_size(1), "1 B");
    assert_eq!(format_size(512), "512 B");
    assert_eq!(format_size(1023), "1023 B");
}

#[test]
fn format_size_units() {
    assert_eq!(format_size(1024), "1.00 KB");
    assert_eq!(format_size(1536), "1.50 KB");
    assert_eq!(format_size(1024 * 1024), "1.00 MB");
    assert_eq!(format_size(3 * 1024 * 1024 * 1024), "3.00 GB");
    assert_eq!(format_size(1024u64.pow(4)), "1.00 TB");
    assert_eq!(format_size(1024u64.pow(5)), "1024.00 TB");
    assert_eq!(format_size(u64::MAX), "16777216.00 TB");
}

#[test]
fn format_size_rounds_half_to_even() {
    // 1.005 KB is not representable exactly; 1029.12 B = 1.005 KB exactly would
    // need the exact tie 1.005, which 1024-based sizes give for 1.125 etc.
    assert_eq!(format_size(1024 + 128), "1.12 KB"); // 1.125 -> 1.12
    assert_eq!(format_size(1024 + 384), "1.38 KB"); // 1.375 -> 1.38
    assert_eq!(format_size(1024 + 5), "1.00 KB");
    assert_eq!(format_size(1024 * 1023 + 1023), "1024.00 KB");
}

#[test]
fn format_size_agrees_with_floating_point() {
    let mut samples: Vec<u64> = Vec::new();
    for k in 0..64u32 {
        let p = 1u64 << k;
        samples.push(p);
        samples.push(p - 1);
        samples.push(p + 1);
        samples.push(p.wrapping_mul(3) / 2);
    }
    let mut x: u64 = 0x9E37_79B9_7F4A_7C15;
    for _ in 0..5000 {
        x ^= x << 13;
        x ^= x >> 7;
        x ^= x << 17;
        samples.push(x >> (x % 64));
    }
    for b in [1152u64, 1408, 1029, 10485, 1048575, 9007199254740993, 18014398509481985] {
        samples.push(b);
    }
    for b in samples {
        assert_eq!(format_size(b), size_with_floats(b), "bytes = {}", b);
    }
}

const SEC: i128 = 1_000_000_000;

#[test]
fn format_time_buckets() {
    let now: u64 = 10_000_000;
    let at = |secs_ago: u64| Some(((now - secs_ago) as i128) * SEC);
    assert_eq!(format_time(at(0), now), "Just now");
    assert_eq!(format_time(at(59), now), "Just now");
    assert_eq!(format_time(at(60), now), "1 min ago");
    assert_eq!(format_time(at(3599), now), "59 min ago");
    assert_eq!(format_time(at(3600), now), "1 hours ago");
    assert_eq!(format_time(at(86399), now), "23 hours ago");
    assert_eq!(format_time(at(86400), now), "1 days ago");
    assert_eq!(format_time(at(604799), now), "6 days ago");
    assert_eq!(format_time(at(604800), now), "1 weeks ago");
    assert_eq!(format_time(at(6048000), now), "10 weeks ago");
}

#[test]
fn format_time_unknown_and_future() {
    assert_eq!(format_time(None, 100), "Unknown");
    assert_eq!(format_time(Some(-1), 100), "Unknown");
    // a time in the future counts as now
    assert_eq!(format_time(Some(500 * SEC), 100), "Just now");
    // sub-second parts are dropped
    assert_eq!(format_time(Some(40 * SEC + SEC - 1), 100), "1 min ago");
}

#[test]
fn item_count_label_plural() {
    assert_eq!(item_count_label(0), "0 items");
    assert_eq!(item_count_label(1), "1 item");
    assert_eq!(item_count_label(2), "2 items");
    assert_eq!(item_count_label(1234), "1234 items");
}

fn fnv_reference(s: &str) -> u64 {
    s.bytes().fold(0xcbf29ce484222325u64, |h, b| h.wrapping_mul(0x100000001b3).wrapping_add(b as u64))
}

#[test]
fn fnv_hash_values() {
    assert_eq!(fnv_hash(""), 0xcbf29ce484222325);
    assert_eq!(fnv_hash("a"), 0xcbf29ce484222325u64.wrapping_mul(0x100000001b3).wrapping_add(97));
    for s in ["a", "report.pdf", "Ünïcødé ✓", "hello world", "x".repeat(300).as_str()] {
        assert_eq!(fnv_hash(s), fnv_reference(s));
    }
}

#[test]
fn share_link_format() {
    let link = share_link("report.pdf");
    assert_eq!(link, format!("anvel://share/{:016x}", fnv_reference("report.pdf")));
    assert_eq!(share_link(""), "anvel://share/cbf29ce484222325");
}

#[test]
fn decimal_and_hex_digits() {
    assert_eq!(decimal_string(0), "0");
    assert_eq!(decimal_string(7), "7");
    assert_eq!(decimal_string(10), "10");
    assert_eq!(decimal_string(u64::MAX), u64::MAX.to_string());
    assert_eq!(hex16_string(0), "0000000000000000");
    assert_eq!(hex16_string(0xabc), "0000000000000abc");
    assert_eq!(hex16_string(u64::MAX), "ffffffffffffffff");
}

#[test]
fn fnv_hash_of_concatenation_continues_the_first_part() {
    for (s, t) in [("", ""), ("ab", "cd"), ("report", ".pdf"), ("Ünï", "cødé ✓"), ("x", "")] {
        let whole = format!("{}{}", s, t);
        let continued = t
            .bytes()
            .fold(fnv_hash(s), |h, b| h.wrapping_mul(0x100000001b3).wrapping_add(b as u64));
        assert_eq!(fnv_hash(&whole), continued);
    }
}
