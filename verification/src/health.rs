//! The health-check endpoint: a fixed success payload served with
//! HTTP status 200 and a JSON content type, with no side effects.
use vstd::prelude::*;
use vstd::assert_seqs_equal;

verus! {

/// The fixed descriptive message carried by the health-check payload.
pub open spec fn spec_health_message() -> Seq<char> {
    "Simple CRUD API with Rust, SQLX, Postgres,and Axum"@
}

/// The exact body of the health-check response.
pub open spec fn spec_health_body() -> Seq<char> {
    "{\"status\":\"success\",\"message\":\"Simple CRUD API with Rust, SQLX, Postgres,and Axum\"}"@
}

/// The serialized form of a JSON object with two string members, in order.
pub open spec fn spec_json_two_string_members(
    k1: Seq<char>,
    v1: Seq<char>,
    k2: Seq<char>,
    v2: Seq<char>,
) -> Seq<char> {
    "{\""@ + k1 + "\":\""@ + v1 + "\",\""@ + k2 + "\":\""@ + v2 + "\"}"@
}

/// The health-check body is exactly the JSON object whose `status`
/// member is `success` and whose `message` member is the fixed message.
pub proof fn lemma_health_body_is_json_object()
    ensures
        spec_health_body() == spec_json_two_string_members(
            "status"@,
            "success"@,
            "message"@,
            spec_health_message(),
        ),
{
    reveal_strlit("{\"status\":\"success\",\"message\":\"Simple CRUD API with Rust, SQLX, Postgres,and Axum\"}");
    reveal_strlit("{\"");
    reveal_strlit("\":\"");
    reveal_strlit("\",\"");
    reveal_strlit("\"}");
    reveal_strlit("status");
    reveal_strlit("success");
    reveal_strlit("message");
    reveal_strlit("Simple CRUD API with Rust, SQLX, Postgres,and Axum");
    assert_seqs_equal!(
        spec_health_body() == spec_json_two_string_members(
            "status"@,
            "success"@,
            "message"@,
            spec_health_message(),
        )
    );
}

/// The HTTP status of every health-check response.
pub fn health_check_status() -> (r: u16)
    ensures
        r == 200,
{
    200
}

/// The body of every health-check response, byte for byte.
pub fn health_check_body() -> (r: &'static str)
    ensures
        r@ == spec_health_body(),
{
    "{\"status\":\"success\",\"message\":\"Simple CRUD API with Rust, SQLX, Postgres,and Axum\"}"
}

/// The fixed message inside the health-check payload.
pub fn health_check_message() -> (r: &'static str)
    ensures
        r@ == spec_health_message(),
{
    "Simple CRUD API with Rust, SQLX, Postgres,and Axum"
}

} // verus!
