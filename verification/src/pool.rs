//! The application's shared state and the bounded database pool it
//! holds. The pool itself belongs to sqlx; this module configures it
//! with the fixed connection bound and carries its handle opaquely.
use vstd::prelude::*;
use crate::config::MAX_DB_CONNECTIONS;

verus! {

/// Options for a Postgres connection pool, as sqlx builds one. The
/// value is sqlx's own; this library reasons about it only through
/// the configured connection bound.
#[verifier::external_body]
pub struct PgPoolOptions {
    /// The underlying sqlx options, for the caller that opens the pool.
    pub inner: sqlx::pool::PoolOptions<sqlx::Postgres>,
}

/// A handle to an open Postgres connection pool, as sqlx manages one.
/// The value is sqlx's own and opaque here.
#[verifier::external_body]
pub struct PgPool {
    /// The underlying sqlx pool handle.
    pub inner: sqlx::Pool<sqlx::Postgres>,
}

/// The connection bound a set of pool options was configured with:
/// the greatest number of connections a pool built from them will
/// hold open at once.
pub uninterp spec fn spec_pool_options_max(o: PgPoolOptions) -> u32;

/// Relies on sqlx's `PoolOptions::new`: every field starts at its
/// documented default; the default connection bound is 10.
#[verifier::external_body]
fn pg_pool_options_new() -> (r: PgPoolOptions)
    ensures
        spec_pool_options_max(r) == 10,
{
    PgPoolOptions { inner: sqlx::pool::PoolOptions::new() }
}

/// Relies on sqlx's `PoolOptions::max_connections`: it sets the
/// connection bound to exactly the given value.
#[verifier::external_body]
fn pg_pool_options_set_max(o: PgPoolOptions, max: u32) -> (r: PgPoolOptions)
    ensures
        spec_pool_options_max(r) == max,
{
    PgPoolOptions { inner: o.inner.max_connections(max) }
}

/// Relies on sqlx's `PoolOptions::get_max_connections`: it returns
/// the configured connection bound.
#[verifier::external_body]
fn pg_pool_options_get_max(o: &PgPoolOptions) -> (r: u32)
    ensures
        r == spec_pool_options_max(*o),
{
    o.inner.get_max_connections()
}

/// Build pool options bounded by exactly `max` concurrently open
/// connections.
pub fn pool_options_with_max(max: u32) -> (r: PgPoolOptions)
    ensures
        spec_pool_options_max(r) == max,
{
    let base = pg_pool_options_new();
    pg_pool_options_set_max(base, max)
}

/// The pool options the bootstrap hands to sqlx: bounded by the fixed
/// maximum of `MAX_DB_CONNECTIONS` connections.
pub fn configured_pool_options() -> (r: PgPoolOptions)
    ensures
        spec_pool_options_max(r) == MAX_DB_CONNECTIONS,
{
    pool_options_with_max(MAX_DB_CONNECTIONS)
}

/// The connection bound a set of pool options carries.
pub fn pool_options_max(o: &PgPoolOptions) -> (r: u32)
    ensures
        r == spec_pool_options_max(*o),
{
    pg_pool_options_get_max(o)
}

/// The application's shared state: a handle to the one database pool,
/// created at startup and never replaced. No handler reads it yet.
pub struct AppState {
    pub db: PgPool,
}

} // verus!
