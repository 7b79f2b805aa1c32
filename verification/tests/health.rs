//! The health-check payload: fixed status, exact body, valid JSON.
use service_bootstrap::health::{health_check_body, health_check_message, health_check_status};

#[test]
fn health_check_status_is_200() {
    assert_eq!(health_check_status(), 200);
}

#[test]
fn health_check_body_is_exact() {
    assert_eq!(
        health_check_body(),
        "{\"status\":\"success\",\"message\":\"Simple CRUD API with Rust, SQLX, Postgres,and Axum\"}"
    );
}

#[test]
fn health_check_body_is_valid_json_with_two_members() {
    let v: serde_json::Value = serde_json::from_str(health_check_body()).unwrap();
    let obj = v.as_object().unwrap();
    assert_eq!(obj.len(), 2);
    assert_eq!(v.get("status").unwrap().as_str().unwrap(), "success");
    assert_eq!(v.get("message").unwrap().as_str().unwrap(), health_check_message());
}

#[test]
fn health_check_message_is_exact() {
    assert_eq!(health_check_message(), "Simple CRUD API with Rust, SQLX, Postgres,and Axum");
}
