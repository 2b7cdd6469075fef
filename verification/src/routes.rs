//! The two operations that the gateway serves.

pub mod bookmarks;
pub mod gists;
