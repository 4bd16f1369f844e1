use next_ui::format::{trimmed, white_space};
use next_ui::bytes::format_bytes;
use next_ui::clock::{relative_time, relative_time_at, timestamp_at};
use next_ui::features::bottles::timestamp;
use next_ui::features::onboarding;
use next_ui::icons::{Icon, SIZE};

fn float_reference(bytes: u64) -> String {
    const KB: f64 = 1024.0;
    const MB: f64 = KB * 1024.0;
    let bytes = bytes as f64;
    if bytes >= MB {
        format!("{:.1} MB", bytes / MB)
    } else {
        format!("{:.0} KB", bytes / KB)
    }
}

#[test]
fn byte_sizes_match_the_float_formatting() {
    let mut samples: Vec<u64> = vec![
        0, 1, 511, 512, 513, 1023, 1024, 1535, 1536, 1537, 2560, 3584, 1_048_575, 1_048_576,
        1_100_000, 1_153_433, 1_153_434, 1_205_862, 1_258_291, 5_000_000, 52_428_800, 123_456_789,
        u64::MAX, u64::MAX - 1, 1 << 53, (1 << 53) + 1, (1 << 60) + 12_345, 9_007_199_254_740_993,
    ];
    for k in 0..2048u64 {
        samples.push(k * 512);
        samples.push(k * 104_857 + 7);
        samples.push(1_048_576 * k + 52_429 * (k % 20));
    }
    let mut x: u64 = 0x9e37_79b9_7f4a_7c15;
    for _ in 0..20_000 {
        x ^= x << 13;
        x ^= x >> 7;
        x ^= x << 17;
        samples.push(x >> (x % 64));
    }
    for bytes in samples {
        assert_eq!(format_bytes(bytes), float_reference(bytes), "bytes = {bytes}");
    }
}

#[test]
fn byte_sizes_have_exact_examples() {
    assert_eq!(format_bytes(0), "0 KB");
    assert_eq!(format_bytes(512), "0 KB");
    assert_eq!(format_bytes(1536), "2 KB");
    assert_eq!(format_bytes(1_048_576), "1.0 MB");
    assert_eq!(format_bytes(1_572_864), "1.5 MB");
    assert_eq!(onboarding::format_bytes(2048), "2 KB");
}

#[test]
fn relative_times_count_whole_units() {
    assert_eq!(relative_time_at(Some(1_000), 1_000), "Just now");
    assert_eq!(relative_time_at(Some(1_059), 1_000), "Just now");
    assert_eq!(relative_time_at(Some(1_060), 1_000), "1 minutes ago");
    assert_eq!(relative_time_at(Some(1_000 + 3_599), 1_000), "59 minutes ago");
    assert_eq!(relative_time_at(Some(1_000 + 7_200), 1_000), "2 hours ago");
    assert_eq!(relative_time_at(Some(1_000 + 3 * 86_400), 1_000), "3 days ago");
    assert_eq!(relative_time_at(Some(0), 5_000), "Just now");
    assert_eq!(relative_time_at(None, 5_000), "Just now");
    assert!(!relative_time(0).is_empty());
}

#[test]
fn timestamps_show_the_time_of_day() {
    assert_eq!(timestamp_at(0), "00:00:00");
    assert_eq!(timestamp_at(3_661), "01:01:01");
    assert_eq!(timestamp_at(86_399), "23:59:59");
    assert_eq!(timestamp_at(86_400 + 45), "00:00:45");
    let now = timestamp();
    assert_eq!(now.len(), 8);
    assert_eq!(&now[2..3], ":");
}

#[test]
fn icons_live_under_the_asset_directory() {
    assert_eq!(Icon::DownCaret.name(), "down_caret");
    assert_eq!(Icon::Bottles.asset_path(), "icons/bottles-symbolic.svg");
    assert_eq!(Icon::Arrow.asset_path(), "icons/arrow.svg");
    assert_eq!(SIZE, 24);
}

#[test]
fn trimming_drops_unicode_whitespace_at_both_ends_only() {
    assert_eq!(trimmed("  New profile \t\n"), "New profile");
    assert_eq!(trimmed("\u{3000}名前\u{a0}"), "名前");
    assert_eq!(trimmed(" \n\t "), "");
    assert_eq!(trimmed(""), "");
    assert_eq!(trimmed("a  b"), "a  b");
    assert!(white_space('\u{2028}') && white_space('\u{85}'));
    assert!(!white_space('\u{200b}') && !white_space('x'));
}
