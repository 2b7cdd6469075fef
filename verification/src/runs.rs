//! Whole requests: the steps of each operation played against a model of
//! the disk and of the upstreams, and what holds of every such run.

pub mod bookmarks;
pub mod cache;
pub mod gists;
