//! The SQLite-backed variant of the service: its server settings and its
//! leaderboard entries.
pub mod config;
pub mod leaderboard;
