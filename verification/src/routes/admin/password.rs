//! Changing the password of the logged-in user.
pub mod post;
pub mod get;
