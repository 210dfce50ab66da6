//! A verified authentication-service core: request classification, IP and
//! origin handling, rate limiting, brute-force detection, OAuth state
//! handling, refresh-token rotation and the cryptographic helpers around them.

pub mod config;
pub mod error;
pub mod handlers;
pub mod maps;
pub mod middleware;
pub mod models;
pub mod net;
pub mod numfmt;
pub mod oauth;
pub mod security;
pub mod services;
pub mod text;
pub mod time;

pub use error::{AppError, Result};
