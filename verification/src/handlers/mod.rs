//! The decisions of the HTTP endpoints.

pub mod admin;
pub mod health;
pub mod oauth;
pub mod token;
