use bender::api::health::models::{HealthV1, HealthV2};
use bender::api::health::state::HealthState;
use bender::api::health::{health_v1, health_v2, tracing_v1, HeaderEntry};
use bender::clock::Timestamp;
use bender::models::{AddQuote, AddQuotes, GetHealth, Health, Quote};
use bender::store::MemoryStore;

#[test]
fn health_v1_status() {
    let store = MemoryStore::new();
    assert!(health_v1(&store).is_ok());
}

#[test]
fn health_v1_content() {
    let store = MemoryStore::new();
    let response = health_v1(&store).unwrap();
    assert!(response.ok);
}

#[test]
fn health_v2_status() {
    let store = MemoryStore::new();
    assert!(health_v2(&store).is_ok());
}

#[test]
fn health_v2_content() {
    let store = MemoryStore::new();
    let response = health_v2(&store).unwrap();
    assert!(response.ok);
    assert_eq!(
        response.started_at,
        store.get_health(&GetHealth {}).unwrap().started_at
    );
}

#[test]
fn store_started_recently() {
    let store = MemoryStore::new();
    let health = store.get_health(&GetHealth {}).unwrap();
    // Later than 2020-01-01T00:00:00Z.
    assert!(health.started_at.secs > 1_577_836_800);
    assert!(health.started_at.nanos < 2_000_000_000);
}

#[test]
fn health_v2_roundtrip_keeps_start() {
    let store = MemoryStore::new();
    let v2 = health_v2(&store).unwrap();
    let h: Health = v2.into();
    let back: HealthV2 = h.into();
    assert_eq!(back, v2);
    let v1: HealthV1 = h.into();
    assert_eq!(v1, HealthV1 { ok: true });
    let from_v1 = Health::from_v1(HealthV1 { ok: false });
    assert!(!from_v1.ok);
}

#[test]
fn health_state_views() {
    let state = HealthState::new();
    assert!(state.ok);
    let v1: HealthV1 = state.health();
    assert!(v1.ok);
    let v2: HealthV2 = state.health();
    assert_eq!(v2.started_at, state.started_at);
}

fn header(name: &str, value: Option<&str>) -> HeaderEntry {
    HeaderEntry {
        name: name.to_string(),
        value: value.map(|v| v.to_string()),
    }
}

#[test]
fn tracing_report_with_parent() {
    let headers = vec![
        header("accept", Some("*/*")),
        header("traceparent", Some("00-abc-def-01")),
        header("x-bin", None),
        header("traceparent", Some("ignored")),
    ];
    let reply = tracing_v1(&headers, "4bf92f3577b34da6", true).unwrap();
    assert_eq!(
        reply,
        "OpenTelemetry TraceParent is: 00-abc-def-01 (current trace ID is: 4bf92f3577b34da6, sampling is enabled)\n\naccept: */*\ntraceparent: 00-abc-def-01\nx-bin: invalid utf8\ntraceparent: ignored"
    );
}

#[test]
fn tracing_report_without_headers() {
    let reply = tracing_v1(&vec![], "0", false).unwrap();
    assert_eq!(
        reply,
        "OpenTelemetry TraceParent is: <not set> (current trace ID is: 0, sampling is disabled)\n\n"
    );
}

#[test]
fn tracing_report_unreadable_parent() {
    let headers = vec![header("traceparent", None)];
    let reply = tracing_v1(&headers, "1", false).unwrap();
    assert!(reply.starts_with("OpenTelemetry TraceParent is: invalid utf8 ("));
    assert!(reply.ends_with("\n\ntraceparent: invalid utf8"));
}

#[test]
fn health_at_given_times() {
    let t = Timestamp { secs: 1_700_000_000, nanos: 42 };
    let state = HealthState::at(t);
    assert!(state.ok);
    assert_eq!(state.started_at, t);
    let h = Health::from_v1_at(HealthV1 { ok: true }, t);
    assert_eq!(h, Health { ok: true, started_at: t });
    let s = HealthV1 { ok: false }.to_state_at(t);
    assert_eq!(s, HealthState { ok: false, started_at: t });
    let store = MemoryStore::started_at(t);
    assert_eq!(health_v2(&store).unwrap(), HealthV2 { ok: true, started_at: t });
}

#[test]
fn health_keeps_start_time_after_adds() {
    let t = Timestamp { secs: 5, nanos: 6 };
    let mut store = MemoryStore::started_at(t);
    store
        .add_quote(AddQuote { quote: "a".to_string(), who: "b".to_string() })
        .unwrap();
    store
        .add_quotes(AddQuotes {
            quotes: vec![Quote { quote: "c".to_string(), who: "d".to_string() }],
        })
        .unwrap();
    assert_eq!(
        store.get_health(&GetHealth {}).unwrap(),
        Health { ok: true, started_at: t }
    );
}
