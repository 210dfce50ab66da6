pub mod api_key;
pub mod audit;
pub mod auth;
pub mod cors;
pub mod headers;
pub mod ip_filter;
pub mod rate_limit;
pub mod security_headers;

pub use audit::determine_event_type;
pub use auth::{bearer_token, AuthenticatedUser};
pub use ip_filter::{client_ip_from, ClientIp};
pub use rate_limit::RateLimiter;
pub use security_headers::security_headers;
