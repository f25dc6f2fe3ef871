//! Process configuration: the database location and the connection-pool
//! bounds, with their defaults. Reading the environment is the caller's
//! concern.
use vstd::prelude::*;

verus! {

/// What the process needs to reach its store.
#[derive(Debug, Clone)]
pub struct Env {
    pub database_url: String,
    pub max_connection: u32,
    pub min_connection: u32,
}

/// The pool's upper bound when the environment names none.
pub fn default_max_connection() -> (r: u32)
    ensures
        r == 50,
{
    50
}

/// The pool's lower bound when the environment names none.
pub fn default_min_connection() -> (r: u32)
    ensures
        r == 5,
{
    5
}

} // verus!
