//! Fixed configuration values of the service: the environment variable
//! that names the database, the listen address, and the pool bound.
use vstd::prelude::*;

verus! {

/// The greatest number of database connections the pool may hold open.
pub const MAX_DB_CONNECTIONS: u32 = 10;

/// Name of the environment variable that holds the database connection string.
pub fn database_url_key() -> (r: &'static str)
    ensures
        r@ == "DATABASE_URL"@,
{
    "DATABASE_URL"
}

/// Address the HTTP listener binds: all interfaces, port 8080.
pub fn bind_address() -> (r: &'static str)
    ensures
        r@ == "0.0.0.0:8080"@,
{
    "0.0.0.0:8080"
}

} // verus!
