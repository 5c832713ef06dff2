use actix_ipquery::Dispatch;
use actix_ipquery::DispatchError;
use actix_ipquery::IPQuery;
use actix_ipquery::IPQueryStore;
use std::sync::Arc;
use std::sync::Mutex;

/// A storage sink for tests: records every received payload, and fails each
/// call when told to.
#[derive(Clone)]
struct RecordingStore {
    records: Arc<Mutex<Vec<ipapi::IPInfo>>>,
    fail: bool,
}

impl RecordingStore {
    fn new(fail: bool) -> RecordingStore {
        RecordingStore { records: Arc::new(Mutex::new(Vec::new())), fail }
    }

    fn received(&self) -> usize {
        self.records.lock().unwrap().len()
    }
}

impl IPQueryStore for RecordingStore {
    fn store(&self, ip_info: ipapi::IPInfo) -> Result<(), std::io::Error> {
        self.records.lock().unwrap().push(ip_info);
        if self.fail {
            Err(std::io::Error::new(std::io::ErrorKind::Other, "sink unavailable"))
        } else {
            Ok(())
        }
    }
}

fn record_for(ip: &str) -> ipapi::IPInfo {
    ipapi::IPInfo { ip: ip.to_string(), isp: None, location: None, risk: None }
}

/// How one driven dispatch ended, as the host pipeline would see it.
#[derive(Debug, PartialEq)]
enum Driven {
    /// The inner handler's response, returned unchanged.
    Response(&'static str),
    /// The inner handler's own error, passed through verbatim.
    InnerError(&'static str),
    /// A pipeline failure: its origin tag and its cause message.
    Failure(&'static str, String),
}

fn failure_of(e: &DispatchError) -> Driven {
    let tag = if e.is_extraction() {
        "extraction"
    } else if e.is_lookup() {
        "lookup"
    } else {
        "storage"
    };
    Driven::Failure(tag, e.message().clone())
}

/// Drives one whole dispatch the way the host glue does, against stub
/// collaborators, counting what was invoked.
fn drive(
    query: &IPQuery<RecordingStore>,
    forwarded: Option<&str>,
    peer: Option<&str>,
    inner_result: Result<&'static str, &'static str>,
    inner_calls: &mut usize,
    lookup_result: Result<ipapi::IPInfo, String>,
    lookup_calls: &mut usize,
) -> Driven {
    let mut d = Dispatch::begin(
        query,
        forwarded.map(|s| s.to_string()),
        peer.map(|s| s.to_string()),
    );
    if d.is_terminal_state() {
        return failure_of(d.error().unwrap());
    }
    *inner_calls += 1;
    let response = match inner_result {
        Ok(payload) => {
            d = d.inner_completed(true);
            payload
        }
        Err(e) => {
            d.inner_completed(false);
            return Driven::InnerError(e);
        }
    };
    *lookup_calls += 1;
    d = match lookup_result {
        Ok(record) => d.resolved(query.store(), record),
        Err(message) => d.lookup_failed(message),
    };
    if d.is_stored() {
        Driven::Response(response)
    } else {
        failure_of(d.error().unwrap())
    }
}

#[test]
fn missing_peer_short_circuits_before_inner() {
    let store = RecordingStore::new(false);
    let query = IPQuery::new(store.clone()).finish();
    let mut inner_calls: usize = 0;
    let mut lookup_calls: usize = 0;
    let out = drive(
        &query,
        None,
        None,
        Ok("page"),
        &mut inner_calls,
        Ok(record_for("0.0.0.0")),
        &mut lookup_calls,
    );
    assert_eq!(
        out,
        Driven::Failure("extraction", "no peer address available".to_string())
    );
    assert_eq!(inner_calls, 0);
    assert_eq!(lookup_calls, 0);
    assert_eq!(store.received(), 0);
}

#[test]
fn inner_failure_passes_through_unchanged() {
    let store = RecordingStore::new(false);
    let query = IPQuery::new(store.clone()).finish();
    let mut inner_calls: usize = 0;
    let mut lookup_calls: usize = 0;
    let out = drive(
        &query,
        None,
        Some("203.0.113.7:54321"),
        Err("inner handler exploded"),
        &mut inner_calls,
        Ok(record_for("203.0.113.7")),
        &mut lookup_calls,
    );
    assert_eq!(out, Driven::InnerError("inner handler exploded"));
    assert_eq!(inner_calls, 1);
    assert_eq!(lookup_calls, 0);
    assert_eq!(store.received(), 0);
}

#[test]
fn lookup_failure_discards_successful_response() {
    let store = RecordingStore::new(false);
    let query = IPQuery::new(store.clone()).finish();
    let mut inner_calls: usize = 0;
    let mut lookup_calls: usize = 0;
    let out = drive(
        &query,
        None,
        Some("203.0.113.7:54321"),
        Ok("page"),
        &mut inner_calls,
        Err("resolution timed out".to_string()),
        &mut lookup_calls,
    );
    assert_eq!(
        out,
        Driven::Failure("lookup", "resolution timed out".to_string())
    );
    assert_ne!(out, Driven::Response("page"));
    assert_eq!(inner_calls, 1);
    assert_eq!(lookup_calls, 1);
    assert_eq!(store.received(), 0);
}

#[test]
fn store_failure_overrides_successful_response() {
    let store = RecordingStore::new(true);
    let query = IPQuery::new(store.clone()).finish();
    let mut inner_calls: usize = 0;
    let mut lookup_calls: usize = 0;
    let out = drive(
        &query,
        None,
        Some("203.0.113.7:54321"),
        Ok("distinguishable successful payload"),
        &mut inner_calls,
        Ok(record_for("203.0.113.7")),
        &mut lookup_calls,
    );
    match &out {
        Driven::Failure(tag, message) => {
            assert_eq!(*tag, "storage");
            assert_eq!(message, "sink unavailable");
        }
        other => panic!("expected a storage failure, got {:?}", other),
    }
    assert_ne!(out, Driven::Response("distinguishable successful payload"));
    assert_eq!(inner_calls, 1);
    assert_eq!(lookup_calls, 1);
    assert_eq!(store.received(), 1);
}

#[test]
fn dispatching_twice_stores_twice() {
    let store = RecordingStore::new(false);
    let query = IPQuery::new(store.clone()).finish();
    let mut inner_calls: usize = 0;
    let mut lookup_calls: usize = 0;
    for _ in 0..2 {
        let out = drive(
            &query,
            None,
            Some("203.0.113.7:54321"),
            Ok("page"),
            &mut inner_calls,
            Ok(record_for("203.0.113.7")),
            &mut lookup_calls,
        );
        assert_eq!(out, Driven::Response("page"));
    }
    assert_eq!(inner_calls, 2);
    assert_eq!(lookup_calls, 2);
    assert_eq!(store.received(), 2);
    let records = store.records.lock().unwrap();
    assert_eq!(records[0], record_for("203.0.113.7"));
    assert_eq!(records[1], record_for("203.0.113.7"));
}

#[test]
fn forwarded_scenario_end_to_end() {
    let store = RecordingStore::new(false);
    let mut builder = IPQuery::new(store.clone());
    builder.endpoint("https://mock.local/").forwarded_for(true);
    let query = builder.finish();

    let d = Dispatch::begin(&query, Some("198.51.100.9".to_string()), None);
    assert!(!d.is_terminal_state());
    assert!(d.is_dispatching());
    assert_eq!(d.ip(), "198.51.100.9");
    assert_eq!(d.endpoint(), "https://mock.local/");

    let d = d.inner_completed(true);
    assert!(d.is_resolving());
    assert_eq!(d.ip(), "198.51.100.9");

    // the lookup stub answers with a fixed record for that address
    let fixed = record_for("198.51.100.9");
    let d = d.resolved(query.store(), fixed);

    assert!(d.is_stored());
    assert!(d.error().is_none());
    assert_eq!(store.received(), 1);
    let records = store.records.lock().unwrap();
    assert_eq!(records[0], record_for("198.51.100.9"));
}

#[test]
fn store_completed_pins_both_outcomes() {
    let store = RecordingStore::new(false);
    let query = IPQuery::new(store).finish();
    let d = Dispatch::begin(&query, None, Some("203.0.113.7:54321".to_string()));
    let d = d.inner_completed(true);
    let done = d.store_completed(Err("disk full".to_string()));
    let e = done.error().unwrap();
    assert!(e.is_storage());
    assert_eq!(e.message(), "disk full");
    assert!(!done.is_stored());
}
