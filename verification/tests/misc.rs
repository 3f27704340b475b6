use bender::api::error::APIError;
use bender::settings::{listening_port, DEFAULT_PORT};
use bender::telemetry::session::{Session, TelemetryBackend};
use bender::text::{decimal_string, to_lowercase};

#[test]
fn listening_port_reads_configured_value() {
    assert_eq!(listening_port(None), 8000);
    assert_eq!(listening_port(Some("8080")), 8080);
    assert_eq!(listening_port(Some("+81")), 81);
    assert_eq!(listening_port(Some("0")), 0);
    assert_eq!(listening_port(Some("65535")), 65535);
    assert_eq!(listening_port(Some("007")), 7);
}

#[test]
fn listening_port_falls_back() {
    for value in ["", "+", "-1", "65536", "100000000000", "80a", " 80", "80 ", "abc", "++1"] {
        assert_eq!(listening_port(Some(value)), DEFAULT_PORT, "value {:?}", value);
        assert_eq!(value.parse::<u16>().ok(), None, "value {:?}", value);
    }
}

#[test]
fn listening_port_agrees_with_std() {
    for n in [0u16, 1, 9, 10, 99, 443, 8000, 12345, 65535] {
        let s = decimal_string(n);
        assert_eq!(s, n.to_string());
        assert_eq!(listening_port(Some(&s)), n);
    }
}

#[test]
fn error_status_codes() {
    assert_eq!(APIError::new(404, "Not Found", "x").status_code(), 404);
    assert_eq!(APIError::new(100, "Continue", "x").status_code(), 100);
    assert_eq!(APIError::new(999, "Odd", "x").status_code(), 999);
    assert_eq!(APIError::new(99, "Odd", "x").status_code(), 500);
    assert_eq!(APIError::new(1000, "Odd", "x").status_code(), 500);
    assert_eq!(APIError::new(0, "Odd", "x").status_code(), 500);
}

#[test]
fn error_text() {
    let e = APIError::new(404, "Not Found", "Nothing here.");
    assert_eq!(e.to_string(), "[HTTP 404 Not Found] Nothing here.");
    assert_eq!(e.code, 404);
    assert_eq!(e.error, "Not Found");
    assert_eq!(e.message, "Nothing here.");
}

#[test]
fn mailbox_error_is_internal() {
    let e = APIError::from_mailbox_error(actix::MailboxError::Closed);
    assert_eq!(e.code, 500);
    assert_eq!(e.error, "Internal Server Error");
    assert_eq!(
        e.message,
        "We ran into a problem, this has been reported and will be looked at."
    );
    assert_eq!(APIError::from_mailbox_error(actix::MailboxError::Timeout), e);
}

#[test]
fn telemetry_backend_selection() {
    assert_eq!(Session::new("key", "other").backend, TelemetryBackend::Honeycomb);
    assert_eq!(Session::new("key", "").backend, TelemetryBackend::Honeycomb);
    assert_eq!(Session::new("", "other").backend, TelemetryBackend::ApplicationInsights);
    assert_eq!(Session::new("", "").backend, TelemetryBackend::Stdout);
}

#[test]
fn lowercase_follows_std() {
    assert_eq!(to_lowercase("bEnDeR"), "bender");
    assert_eq!(to_lowercase("ÀÉÎ"), "àéî");
    assert_eq!(to_lowercase(""), "");
}
