use wedding_backend::health::{health_body, health_check, DatabaseStatus};
use wedding_backend::service::{handle_request, route_of, Route};

#[test]
fn health_body_connected_exact() {
    let h = health_check(true);
    assert_eq!(h.status, "ok");
    assert_eq!(h.service, "Rust Wedding Backend");
    assert_eq!(h.version, "0.1.0");
    assert_eq!(h.database, DatabaseStatus::Connected);
    let body = health_body(&h);
    assert_eq!(
        body,
        "{\"status\":\"ok\",\"service\":\"Rust Wedding Backend\",\"database\":\"connected\",\"version\":\"0.1.0\"}"
    );
}

#[test]
fn health_body_disconnected_exact() {
    let h = health_check(false);
    assert_eq!(h.database, DatabaseStatus::Disconnected);
    let body = health_body(&h);
    assert_eq!(
        body,
        "{\"status\":\"ok\",\"service\":\"Rust Wedding Backend\",\"database\":\"disconnected\",\"version\":\"0.1.0\"}"
    );
}

#[test]
fn health_body_is_valid_json_with_expected_fields() {
    let h = health_check(true);
    let body = health_body(&h);
    let v: serde_json::Value = serde_json::from_str(&body).unwrap();
    assert_eq!(v["status"], serde_json::Value::String("ok".to_string()));
    assert_eq!(v["service"], serde_json::Value::String("Rust Wedding Backend".to_string()));
    assert_eq!(v["database"], serde_json::Value::String("connected".to_string()));
    assert_eq!(v["version"], serde_json::Value::String("0.1.0".to_string()));
}

#[test]
fn root_and_health_paths_answer_identically() {
    for probe_ok in [true, false] {
        let root = handle_request("/", probe_ok);
        let health = handle_request("/health", probe_ok);
        assert_eq!(root.status_code, 200);
        assert_eq!(health.status_code, 200);
        assert_eq!(root.body, health.body);
    }
}

#[test]
fn degraded_database_still_answers_200() {
    let r = handle_request("/health", false);
    assert_eq!(r.status_code, 200);
    let v: serde_json::Value = serde_json::from_str(&r.body).unwrap();
    assert_eq!(v["database"], serde_json::Value::String("disconnected".to_string()));
}

#[test]
fn status_field_is_ok_for_both_probe_outcomes() {
    for probe_ok in [true, false] {
        let r = handle_request("/health", probe_ok);
        let v: serde_json::Value = serde_json::from_str(&r.body).unwrap();
        assert_eq!(v["status"], serde_json::Value::String("ok".to_string()));
    }
}

#[test]
fn unknown_paths_are_not_found() {
    assert_eq!(route_of("/other"), Route::NotFound);
    assert_eq!(route_of(""), Route::NotFound);
    assert_eq!(route_of("/health/"), Route::NotFound);
    let r = handle_request("/other", true);
    assert_eq!(r.status_code, 404);
    assert_eq!(r.body, "");
}

#[test]
fn known_paths_route_to_health() {
    assert_eq!(route_of("/"), Route::Health);
    assert_eq!(route_of("/health"), Route::Health);
}

#[test]
fn database_status_labels() {
    assert_eq!(DatabaseStatus::Connected.label(), "connected");
    assert_eq!(DatabaseStatus::Disconnected.label(), "disconnected");
}
