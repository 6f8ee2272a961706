//! Connection setup shared by every database handle.

use vstd::prelude::*;

verus! {

/// The statements that configure a fresh SQLite connection.
pub const SQLITE_PRAGMAS: &'static str = "PRAGMA journal_mode = WAL;
     PRAGMA busy_timeout = 5000;
     PRAGMA synchronous = NORMAL;
     PRAGMA cache_size = 1000000000;
     PRAGMA foreign_keys = true;
     PRAGMA temp_store = memory;";

/// Sets up SQLite PRAGMAs for optimal performance.
pub fn get_sqlite_pragmas() -> (pragmas: &'static str)
    ensures
        pragmas@ == SQLITE_PRAGMAS@,
{
    SQLITE_PRAGMAS
}

} // verus!
