//! The decisions behind each endpoint.
pub mod admin;
pub mod login;
pub mod health_check;
pub mod home;
pub mod newsletters;
pub mod subscriptions;
pub mod subscriptions_confirm;
