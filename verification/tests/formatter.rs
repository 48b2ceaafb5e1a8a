use so2_tool::api::schema::{Formatter, RequestReport, Schema};

#[test]
fn plain_formatter_leaves_bytes_alone() {
    let bytes = b"{\"a\": 1}".to_vec();
    assert_eq!(Formatter::Plain.format(&bytes), bytes);
    assert_eq!(Formatter::Plain.format(&Vec::new()), Vec::<u8>::new());
}

#[test]
fn special_formatter_wraps_and_strips_the_trailing_comma() {
    let fragment = b"[1,2],[3,4],".to_vec();
    assert_eq!(Formatter::Special.format(&fragment), b"[[1,2],[3,4]]".to_vec());
}

#[test]
fn special_formatter_wraps_bytes_without_a_trailing_comma() {
    let fragment = b"[1,2]".to_vec();
    assert_eq!(Formatter::Special.format(&fragment), b"[[1,2]]".to_vec());
}

#[test]
fn special_formatter_turns_nothing_into_an_empty_array() {
    assert_eq!(Formatter::Special.format(&Vec::new()), b"[]".to_vec());
}

#[test]
fn request_report_declares_the_special_formatter() {
    let d = so2_tool::api::schema::Date::new(2024, 3, 5);
    let all = RequestReport::All { date: d, hour: 7 };
    assert_eq!(all.formatter(), Formatter::Special);
    assert_eq!(so2_tool::api::schema::Sale.formatter(), Formatter::Plain);
}

#[test]
fn cached_raw_bytes_parse_like_the_live_fetch() {
    // The provider's fragment is cached raw; both the live path and a later
    // cache read pass it through the same fixup and parse the same value.
    let fetched = b"[101,\"a\",102,\"b\",5,[1,2]],[103,\"c\",104,\"d\",6,[3,4]],".to_vec();
    let stored = fetched.clone();

    let live = Formatter::Special.format(&fetched);
    let reread = Formatter::Special.format(&stored);
    assert_eq!(live, reread);

    let live_value: serde_json::Value = serde_json::from_slice(&live).unwrap();
    let reread_value: serde_json::Value = serde_json::from_slice(&reread).unwrap();
    assert_eq!(live_value, reread_value);
    assert!(live_value.is_array());
    assert_eq!(live_value.as_array().unwrap().len(), 2);
}
