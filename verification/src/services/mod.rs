//! The stateful services: brute-force and anomaly detection, OAuth state
//! handling, refresh-token rotation and the cryptographic helpers.

pub mod anomaly_detection;
pub mod auth_service;
pub mod token_service;
pub mod user_service;

pub use anomaly_detection::{extract_ip_subnet, AnomalyConfig, AnomalyDetectionService, AnomalyResult};
pub use auth_service::AuthService;
pub use token_service::TokenService;
