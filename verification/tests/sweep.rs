use so2_tool::app::delete_expired_cache::{has_json_ext, select_expired, should_sweep, SweepEntry};

const MINUTE_MS: u64 = 60_000;

#[test]
fn sweep_deletes_the_old_file_and_keeps_the_young_one() {
    // Files aged ten and seventy minutes, window sixty minutes.
    let now: u64 = 1_000 * MINUTE_MS;
    let entries = vec![
        SweepEntry { name: String::from("young.json"), modified_ms: now - 10 * MINUTE_MS },
        SweepEntry { name: String::from("old.json"), modified_ms: now - 70 * MINUTE_MS },
    ];
    let swept = select_expired(&entries, now, 60 * MINUTE_MS);
    assert_eq!(swept, vec![String::from("old.json")]);
}

#[test]
fn sweep_age_boundary_is_strict() {
    let now: u64 = 1_000 * MINUTE_MS;
    let exactly = SweepEntry { name: String::from("a.json"), modified_ms: now - 60 * MINUTE_MS };
    let over = SweepEntry { name: String::from("b.json"), modified_ms: now - 60 * MINUTE_MS - 1 };
    assert!(!should_sweep(&exactly, now, 60 * MINUTE_MS));
    assert!(should_sweep(&over, now, 60 * MINUTE_MS));
}

#[test]
fn sweep_skips_other_extensions_and_clock_anomalies() {
    let now: u64 = 1_000 * MINUTE_MS;
    let entries = vec![
        SweepEntry { name: String::from("notes.txt"), modified_ms: now - 70 * MINUTE_MS },
        SweepEntry { name: String::from("future.json"), modified_ms: now + MINUTE_MS },
        SweepEntry { name: String::from("gone.json"), modified_ms: now - 70 * MINUTE_MS },
    ];
    let swept = select_expired(&entries, now, 60 * MINUTE_MS);
    assert_eq!(swept, vec![String::from("gone.json")]);
}

#[test]
fn sweep_of_an_empty_listing_deletes_nothing() {
    let swept = select_expired(&Vec::new(), 1_000 * MINUTE_MS, 60 * MINUTE_MS);
    assert!(swept.is_empty());
}

#[test]
fn json_extension_check() {
    assert!(has_json_ext("a.json"));
    assert!(has_json_ext("request_report_2024-03-05_7h.json"));
    assert!(!has_json_ext(".json2"));
    assert!(!has_json_ext("json"));
    assert!(!has_json_ext("a.JSON"));
    assert!(!has_json_ext(""));
}
