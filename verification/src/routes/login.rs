//! Logging in.
pub mod get;
pub mod post;
