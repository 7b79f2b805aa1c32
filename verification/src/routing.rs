//! The HTTP surface: a static route table with exactly one entry.
//! A request matches the health-check route if and only if it is a
//! GET on the health-check path; everything else falls through to
//! the server's not-found behavior.
use vstd::prelude::*;

verus! {

/// The one route's method.
pub open spec fn spec_health_method() -> Seq<char> {
    "GET"@
}

/// The one route's path.
pub open spec fn spec_health_path() -> Seq<char> {
    "/api/healthcheck"@
}

/// Where the route table sends a request.
#[derive(Clone, Copy, Debug, PartialEq, Eq, Structural)]
pub enum RouteMatch {
    /// The request is a GET on the health-check path.
    HealthCheck,
    /// No registered route matches; the server answers not-found.
    NotFound,
}

/// Path of the single registered route.
pub fn health_check_path() -> (r: &'static str)
    ensures
        r@ == spec_health_path(),
{
    "/api/healthcheck"
}

/// Answer a request on the whole surface: a GET on the health-check
/// path gets status 200 with the exact health-check body; every other
/// request gets no answer here and falls through to the server's
/// not-found behavior. The handler consults nothing and cannot fail.
pub fn handle_request(method: &str, path: &str) -> (r: Option<(u16, &'static str)>)
    ensures
        r is Some <==> (method@ == spec_health_method() && path@ == spec_health_path()),
        r matches Some(resp) ==> resp.0 == 200 && resp.1@ == crate::health::spec_health_body(),
{
    match route_request(method, path) {
        RouteMatch::HealthCheck => Some(
            (crate::health::health_check_status(), crate::health::health_check_body()),
        ),
        RouteMatch::NotFound => None,
    }
}

/// Resolve a request against the route table: the health-check route
/// matches exactly the GET method on the health-check path, and no
/// other method or path matches anything.
pub fn route_request(method: &str, path: &str) -> (r: RouteMatch)
    ensures
        r == RouteMatch::HealthCheck <==> (method@ == spec_health_method() && path@
            == spec_health_path()),
{
    let m: String = method.to_owned();
    let p: String = path.to_owned();
    let health_method: String = "GET".to_owned();
    let health_path: String = "/api/healthcheck".to_owned();
    if m == health_method && p == health_path {
        RouteMatch::HealthCheck
    } else {
        RouteMatch::NotFound
    }
}

} // verus!
