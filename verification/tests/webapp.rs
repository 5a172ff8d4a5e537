use rust_webapp::counter::Counter;
use rust_webapp::message::build_response;
use rust_webapp::message::handle_message;
use rust_webapp::port::resolve_port;
use rust_webapp::rfc3339::check_rfc3339;
use rust_webapp::route::route_request;
use rust_webapp::route::Route;

#[test]
fn counter_starts_at_zero() {
    let c = Counter::new();
    assert_eq!(c.value, 0);
}

#[test]
fn counter_returns_successive_values() {
    let mut c = Counter::new();
    assert_eq!(c.increment_and_fetch(), 1);
    assert_eq!(c.increment_and_fetch(), 2);
    assert_eq!(c.increment_and_fetch(), 3);
    assert_eq!(c.value, 3);
}

#[test]
fn counter_wraps_at_the_top() {
    let mut c = Counter { value: u64::MAX };
    assert_eq!(c.increment_and_fetch(), 0);
}

#[test]
fn counter_window_has_no_duplicates_and_no_gaps() {
    let mut c = Counter { value: 41 };
    let mut seen: Vec<u64> = Vec::new();
    for _ in 0..5 {
        seen.push(c.increment_and_fetch());
    }
    assert_eq!(seen, vec![42, 43, 44, 45, 46]);
}

#[test]
fn message_is_constant_across_calls() {
    let mut c = Counter::new();
    let first = handle_message(&mut c);
    let second = handle_message(&mut c);
    assert_eq!(first.message, "Hello from Rust backend");
    assert_eq!(second.message, "Hello from Rust backend");
    assert_eq!(first.message, second.message);
}

#[test]
fn response_carries_the_fresh_count() {
    let mut c = Counter::new();
    assert_eq!(handle_message(&mut c).counter, 1);
    assert_eq!(handle_message(&mut c).counter, 2);
    assert_eq!(c.value, 2);
}

#[test]
fn build_response_echoes_count_and_timestamp() {
    let r = build_response(7, String::from("2026-01-02T03:04:05Z"));
    assert_eq!(r.counter, 7);
    assert_eq!(r.timestamp, "2026-01-02T03:04:05Z");
    assert_eq!(r.message, "Hello from Rust backend");
}

#[test]
fn timestamps_are_rfc3339_and_do_not_decrease() {
    let mut c = Counter::new();
    let first = handle_message(&mut c);
    let second = handle_message(&mut c);
    assert!(check_rfc3339(&first.timestamp));
    assert!(check_rfc3339(&second.timestamp));
    let t1 = chrono::DateTime::parse_from_rfc3339(&first.timestamp).unwrap();
    let t2 = chrono::DateTime::parse_from_rfc3339(&second.timestamp).unwrap();
    assert!(t1 <= t2);
}

#[test]
fn absent_port_variable_falls_back_to_default() {
    assert_eq!(resolve_port(None), Some(8080));
}

#[test]
fn numeric_port_values_resolve() {
    assert_eq!(resolve_port(Some("8080")), Some(8080));
    assert_eq!(resolve_port(Some("0")), Some(0));
    assert_eq!(resolve_port(Some("65535")), Some(65535));
    assert_eq!(resolve_port(Some("007")), Some(7));
    assert_eq!(resolve_port(Some("000000000000080")), Some(80));
}

#[test]
fn malformed_port_values_are_rejected() {
    assert_eq!(resolve_port(Some("abc")), None);
    assert_eq!(resolve_port(Some("")), None);
    assert_eq!(resolve_port(Some("80a")), None);
    assert_eq!(resolve_port(Some("+80")), None);
    assert_eq!(resolve_port(Some("8080 ")), None);
    assert_eq!(resolve_port(Some("-1")), None);
}

#[test]
fn out_of_range_port_values_are_rejected() {
    assert_eq!(resolve_port(Some("65536")), None);
    assert_eq!(resolve_port(Some("99999999999999999999")), None);
}

#[test]
fn the_api_path_routes_to_the_message_handler() {
    assert_eq!(route_request("/api/message"), Route::ApiMessage);
}

#[test]
fn every_other_path_routes_to_the_static_service() {
    assert_eq!(route_request("/"), Route::StaticAsset);
    assert_eq!(route_request("/index.html"), Route::StaticAsset);
    assert_eq!(route_request("/api"), Route::StaticAsset);
    assert_eq!(route_request("/api/message/"), Route::StaticAsset);
    assert_eq!(route_request("/api/messages"), Route::StaticAsset);
    assert_eq!(route_request(""), Route::StaticAsset);
}

#[test]
fn well_formed_date_times_are_accepted() {
    assert!(check_rfc3339("2026-10-12T08:00:00+00:00"));
    assert!(check_rfc3339("1996-12-19T16:39:57-08:00"));
    assert!(check_rfc3339("2026-10-12T08:00:00Z"));
    assert!(check_rfc3339("2026-10-12t08:00:00z"));
    assert!(check_rfc3339("2026-10-12T08:00:00.123+00:00"));
    assert!(check_rfc3339("2026-10-12T08:00:00.123456789Z"));
    assert!(check_rfc3339("2024-02-29T23:59:60.999Z"));
    assert!(check_rfc3339("2000-02-29T00:00:00Z"));
    assert!(check_rfc3339("0000-01-01T00:00:00Z"));
}

#[test]
fn malformed_date_times_are_rejected() {
    assert!(!check_rfc3339(""));
    assert!(!check_rfc3339("2026-10-12"));
    assert!(!check_rfc3339("2026-10-12T08:00:00"));
    assert!(!check_rfc3339("2026-10-12 08:00:00Z"));
    assert!(!check_rfc3339("2026-13-01T08:00:00Z"));
    assert!(!check_rfc3339("2026-00-01T08:00:00Z"));
    assert!(!check_rfc3339("2026-10-00T08:00:00Z"));
    assert!(!check_rfc3339("2026-04-31T08:00:00Z"));
    assert!(!check_rfc3339("2023-02-29T08:00:00Z"));
    assert!(!check_rfc3339("1900-02-29T08:00:00Z"));
    assert!(!check_rfc3339("2026-10-12T24:00:00Z"));
    assert!(!check_rfc3339("2026-10-12T08:60:00Z"));
    assert!(!check_rfc3339("2026-10-12T08:00:61Z"));
    assert!(!check_rfc3339("2026-10-12T08:00:00.Z"));
    assert!(!check_rfc3339("2026-10-12T08:00:00.123"));
    assert!(!check_rfc3339("2026-10-12T08:00:00+0:00"));
    assert!(!check_rfc3339("2026-10-12T08:00:00+24:00"));
    assert!(!check_rfc3339("2026-10-12T08:00:00+00:60"));
    assert!(!check_rfc3339("2026-10-12T08:00:00+00:00x"));
    assert!(!check_rfc3339("202a-10-12T08:00:00Z"));
}
