//! Core of a personal start-page gateway: the decisions of a read-through
//! bookmark cache and the filter that turns snippet records into bookmarks.

pub mod cache;
pub mod config;
pub mod error;
pub mod routes;
pub mod runs;
pub mod status;
pub mod text;
