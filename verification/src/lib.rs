//! Request handling decisions of the newsletter service: what each endpoint
//! answers, which session and storage effects it asks for, and the route table.
pub mod http;
pub mod utils;
pub mod authentication;
pub mod routes;
pub mod domain;
pub mod startup;
