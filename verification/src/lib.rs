//! Emoji URL shortener: the rules behind shortening a link to an emoji
//! identifier, validating identifiers, reading the service's settings and
//! shaping the replies of its pages.
pub mod config;
pub mod db;
pub mod emoji;
pub mod leaderboard;
pub mod pages;
pub mod text;
pub mod url;
pub mod web;
