//! Leaderboard entries of the SQLite-backed service.
use vstd::prelude::*;

verus! {

/// One link with its identifier, target URL and number of clicks.
#[derive(Debug)]
pub struct Entry {
    pub identifier: String,
    pub url: String,
    pub clicks: i64,
}

} // verus!
