use so2_tool::api::schema::{OfficialItem, RequestReport, Sale};
use so2_tool::app::api_loader::{
    is_fresh, should_refetch, settle_cache_parse, settle_fetch, settle_live_parse, APILoader,
    CacheLoadError, CacheReadOutcome, GetError, GetStep,
};

const HOUR_MS: u64 = 3_600_000;

#[test]
fn cold_cache_asks_for_the_fetch() {
    let loader = APILoader::new(OfficialItem);
    let step = loader.get_step(
        CacheReadOutcome::Missing { cause: String::from("no such file") },
        1_000_000_000,
    );
    assert!(matches!(step, GetStep::Fetch));

    let settled = settle_fetch(Ok(b"{\"k\":1}".to_vec()));
    assert_eq!(settled.unwrap(), b"{\"k\":1}".to_vec());
}

#[test]
fn cold_cache_load_reports_file_not_found() {
    let loader = APILoader::new(OfficialItem);
    let r = loader.load_cache(
        CacheReadOutcome::Missing { cause: String::from("no such file") },
        1_000_000_000,
    );
    match r {
        Err(CacheLoadError::FileNotFound { cause }) => {
            assert_eq!(cause, "no such file");
            assert!(should_refetch(&CacheLoadError::FileNotFound { cause }));
        }
        _ => panic!("expected FileNotFound"),
    }
}

#[test]
fn warm_cache_is_served_without_a_fetch() {
    let loader = APILoader::new(OfficialItem);
    let now: u64 = 10 * HOUR_MS;
    let bytes = b"{\"item\":true}".to_vec();
    let step = loader.get_step(
        CacheReadOutcome::Found { bytes: bytes.clone(), modified_ms: now - 1_000 },
        now,
    );
    match step {
        GetStep::Serve { prepared } => assert_eq!(prepared, bytes),
        GetStep::Fetch => panic!("a fresh file must be served"),
    }

    let r = loader.load_cache(
        CacheReadOutcome::Found { bytes: bytes.clone(), modified_ms: now - 1_000 },
        now,
    );
    assert_eq!(r.unwrap(), bytes);
}

#[test]
fn staleness_boundary_is_strict() {
    // Interval one hour: a file 3599 s old is a hit, 3600 s and 3601 s fetch.
    let now: u64 = 100 * HOUR_MS;
    assert!(is_fresh(now, now - 3_599_000, HOUR_MS));
    assert!(!is_fresh(now, now - 3_600_000, HOUR_MS));
    assert!(!is_fresh(now, now - 3_601_000, HOUR_MS));
    // One millisecond inside the window is fresh again.
    assert!(is_fresh(now, now - HOUR_MS + 1, HOUR_MS));
    // A modification time in the future is a clock anomaly, never fresh.
    assert!(!is_fresh(now, now + 1, HOUR_MS));

    let loader = APILoader::new(OfficialItem);
    let step = loader.get_step(
        CacheReadOutcome::Found { bytes: vec![1], modified_ms: now - HOUR_MS },
        now,
    );
    assert!(matches!(step, GetStep::Fetch));
    let step = loader.get_step(
        CacheReadOutcome::Found { bytes: vec![1], modified_ms: now - HOUR_MS + 1 },
        now,
    );
    assert!(matches!(step, GetStep::Serve { .. }));
}

#[test]
fn sale_uses_the_ten_minute_interval() {
    let loader = APILoader::new(Sale);
    let now: u64 = 100 * HOUR_MS;
    let step = loader.get_step(
        CacheReadOutcome::Found { bytes: vec![1], modified_ms: now - 599_000 },
        now,
    );
    assert!(matches!(step, GetStep::Serve { .. }));
    let step = loader.get_step(
        CacheReadOutcome::Found { bytes: vec![1], modified_ms: now - 600_000 },
        now,
    );
    assert!(matches!(step, GetStep::Fetch));
}

#[test]
fn expired_cache_reports_path_age_and_window() {
    let loader = APILoader::new(Sale);
    let now: u64 = 100 * HOUR_MS;
    let r = loader.load_cache(
        CacheReadOutcome::Found { bytes: vec![1], modified_ms: now - 700_000 },
        now,
    );
    match r {
        Err(CacheLoadError::CacheExpired { path, updated_ms, interval_ms }) => {
            assert_eq!(path, "data\\api\\cache/sale.json");
            assert_eq!(updated_ms, now - 700_000);
            assert_eq!(interval_ms, 600_000);
            assert!(should_refetch(&CacheLoadError::CacheExpired {
                path,
                updated_ms,
                interval_ms
            }));
        }
        _ => panic!("expected CacheExpired"),
    }
}

#[test]
fn corrupt_fresh_cache_is_fatal_not_refetched() {
    // A zero-byte file that is fresh by mtime is still handed to the parser.
    let loader = APILoader::new(OfficialItem);
    let now: u64 = 10 * HOUR_MS;
    let step = loader.get_step(
        CacheReadOutcome::Found { bytes: vec![], modified_ms: now - 1 },
        now,
    );
    match step {
        GetStep::Serve { prepared } => assert_eq!(prepared, Vec::<u8>::new()),
        GetStep::Fetch => panic!("a fresh file must be served, corrupt or not"),
    }
    // Its parse failure is fatal, and a parse failure never triggers a fetch.
    let settled = settle_cache_parse::<u32>(Err(String::from("unexpected end of input")));
    match settled {
        Err(GetError::CacheParseFailed { cause }) => {
            assert_eq!(cause, "unexpected end of input");
        }
        _ => panic!("expected CacheParseFailed"),
    }
    assert!(!should_refetch(&CacheLoadError::ParseFailed {
        cause: String::from("unexpected end of input")
    }));
}

#[test]
fn network_failure_is_surfaced_unchanged() {
    let settled = settle_fetch(Err(String::from("dns error")));
    match settled {
        Err(GetError::NetworkError { cause }) => {
            assert_eq!(cause, "dns error");
            let msg = GetError::NetworkError { cause }.to_message();
            assert_eq!(msg, "Network error: dns error");
        }
        _ => panic!("expected NetworkError"),
    }
}

#[test]
fn write_failure_alone_never_fails_the_call() {
    let ok = settle_live_parse::<u32>(Ok(7), Some(String::from("disk full")));
    assert_eq!(ok.unwrap(), 7);

    let bad = settle_live_parse::<u32>(
        Err(String::from("bad json")),
        Some(String::from("disk full")),
    );
    match bad {
        Err(GetError::LiveParseFailed { cause, write_error }) => {
            assert_eq!(cause, "bad json");
            assert_eq!(write_error.as_deref(), Some("disk full"));
        }
        _ => panic!("expected LiveParseFailed"),
    }
}

#[test]
fn error_messages_render_their_fields() {
    let e = CacheLoadError::FileNotFound { cause: String::from("gone") };
    assert_eq!(e.to_message(), "File not found: gone");
    let e = CacheLoadError::ParseFailed { cause: String::from("bad byte") };
    assert_eq!(e.to_message(), "Parse failed: bad byte");
    let e = CacheLoadError::CacheExpired {
        path: String::from("a/b.json"),
        updated_ms: 120,
        interval_ms: 60,
    };
    assert_eq!(e.to_message(), "Cache expired: a/b.json (120ms + 60ms)");

    let e = GetError::CacheParseFailed { cause: String::from("x") };
    assert_eq!(e.to_message(), "Cache parse failed: x");
    let e = GetError::LiveParseFailed { cause: String::from("x"), write_error: None };
    assert_eq!(e.to_message(), "Live parse failed: x");
    let e = GetError::LiveParseFailed {
        cause: String::from("x"),
        write_error: Some(String::from("y")),
    };
    assert_eq!(e.to_message(), "Live parse failed: x; cache write failed: y");
}

#[test]
fn loader_keeps_its_schema_and_root() {
    let mut loader = APILoader::new(RequestReport::All {
        date: so2_tool::api::schema::Date::new(2024, 3, 5),
        hour: 7,
    });
    assert_eq!(loader.cache_root, "data\\api\\cache");
    loader.set_cache_root(String::from("elsewhere"));
    assert_eq!(loader.cache_root, "elsewhere");
    assert_eq!(
        loader.cache_file_path(),
        "elsewhere/request_report/request_report_2024-03-05_7h.json"
    );
}
