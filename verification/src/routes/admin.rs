//! The administration area.
pub mod password;
pub mod dashboard;
pub mod logout;
