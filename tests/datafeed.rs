use mini_metars::atis::{BroadcastRecord, DatafeedSnapshot};
use mini_metars::datafeed::{AtisStep, DatafeedCache, FetchError, VatsimDataFetch};

fn snapshot() -> DatafeedSnapshot {
    DatafeedSnapshot {
        atis: vec![BroadcastRecord {
            callsign: "KXYZ_ATIS".to_string(),
            atis_code: Some("B".to_string()),
            text_atis: Some(vec!["ATIS INFO B 1200Z".to_string()]),
        }],
    }
}

#[test]
fn staleness_boundary() {
    let t0 = 1_000_000u64;
    let f = VatsimDataFetch::new(t0, Ok(snapshot()));
    assert!(!f.is_stale(t0 + 29_000));
    assert!(!f.is_stale(t0 + 30_000));
    assert!(f.is_stale(t0 + 30_001));
    assert!(f.is_stale(t0 + 31_000));
    assert!(!f.is_stale(t0 - 5));
}

#[test]
fn empty_cache_is_stale() {
    let c = DatafeedCache::new();
    assert!(c.datafeed_is_stale(0));
    assert!(matches!(c.begin_get_atis("KXYZ", 0), AtisStep::Fetch));
    assert_eq!(c.read_atis("KXYZ").err(), Some("Could not retrieve datafeed".to_string()));
}

#[test]
fn fresh_cache_is_read_without_fetch() {
    let mut c = DatafeedCache::new();
    let r = c.finish_get_atis("KXYZ", 100, Ok(snapshot())).unwrap();
    assert_eq!(r.letter, "B");
    match c.begin_get_atis("KXYZ", 100 + 29_000) {
        AtisStep::Ready(Ok(r)) => {
            assert_eq!(r.letter, "B");
            assert_eq!(r.texts, vec!["ATIS INFO B 1200Z".to_string()]);
        }
        _ => panic!("expected a cached answer"),
    }
    assert!(matches!(c.begin_get_atis("KXYZ", 100 + 31_000), AtisStep::Fetch));
}

#[test]
fn failed_refresh_is_cached() {
    let mut c = DatafeedCache::new();
    let first = c.finish_get_atis("KXYZ", 500, Err(FetchError::Feed("timeout".to_string())));
    assert_eq!(first.err(), Some("Could not retrieve datafeed".to_string()));
    let a = c.begin_get_atis("KXYZ", 10_000);
    let b = c.begin_get_atis("KABC", 30_500);
    for step in [a, b] {
        match step {
            AtisStep::Ready(Err(e)) => assert_eq!(e, "Could not retrieve datafeed"),
            _ => panic!("expected the cached error"),
        }
    }
    assert!(matches!(c.begin_get_atis("KXYZ", 30_501), AtisStep::Fetch));
}

#[test]
fn refresh_replaces_previous_entry() {
    let mut c = DatafeedCache::new();
    c.store_fetch(10, Ok(snapshot()));
    c.store_fetch(20, Err(FetchError::ClientNotInitialized));
    assert_eq!(c.latest_vatsim_data.as_ref().map(|f| f.fetched_time), Some(20));
    assert!(c.read_atis("KXYZ").is_err());
    c.store_fetch(30, Ok(snapshot()));
    assert_eq!(c.read_atis("KXYZ").unwrap().letter, "B");
}
