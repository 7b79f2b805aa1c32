//! The route table: one GET route, everything else is not found.
use service_bootstrap::routing::{health_check_path, route_request, RouteMatch};

#[test]
fn get_on_health_path_matches() {
    assert_eq!(route_request("GET", "/api/healthcheck"), RouteMatch::HealthCheck);
}

#[test]
fn get_on_unknown_path_is_not_found() {
    assert_eq!(route_request("GET", "/unknown"), RouteMatch::NotFound);
}

#[test]
fn other_method_on_health_path_is_not_found() {
    assert_eq!(route_request("POST", "/api/healthcheck"), RouteMatch::NotFound);
    assert_eq!(route_request("DELETE", "/api/healthcheck"), RouteMatch::NotFound);
}

#[test]
fn root_path_is_not_found() {
    assert_eq!(route_request("GET", "/"), RouteMatch::NotFound);
    assert_eq!(route_request("GET", ""), RouteMatch::NotFound);
}

#[test]
fn registered_path_is_exact() {
    assert_eq!(health_check_path(), "/api/healthcheck");
}

#[test]
fn surface_answers_health_route_with_exact_response() {
    let answer = service_bootstrap::routing::handle_request("GET", "/api/healthcheck");
    match answer {
        Some((status, body)) => {
            assert_eq!(status, 200);
            assert_eq!(
                body,
                "{\"status\":\"success\",\"message\":\"Simple CRUD API with Rust, SQLX, Postgres,and Axum\"}"
            );
        }
        None => panic!("the health route went unanswered"),
    }
}

#[test]
fn surface_leaves_other_requests_unanswered() {
    assert!(service_bootstrap::routing::handle_request("GET", "/unknown").is_none());
    assert!(service_bootstrap::routing::handle_request("POST", "/api/healthcheck").is_none());
}
