//! Service configuration and its default values. Secrets are held here as
//! plain text: whoever loads the configuration exposes them once.

use vstd::prelude::*;
use crate::text::owned;

verus! {

#[derive(Debug, Clone)]
pub struct AppConfig {
    pub server: ServerConfig,
    pub database: DatabaseConfig,
    pub jwt: JwtConfig,
    pub oauth: OAuthConfig,
    pub security: SecurityConfig,
    pub rate_limit: RateLimitConfig,
    pub logging: LoggingConfig,
    pub cors: CorsConfig,
    pub ip_filter: IpFilterConfig,
}

#[derive(Debug, Clone)]
pub struct ServerConfig {
    pub host: String,
    pub port: u16,
    pub environment: String,
    pub request_timeout_seconds: u64,
}

#[derive(Debug, Clone)]
pub struct DatabaseConfig {
    pub url: String,
    pub max_connections: u32,
    pub min_connections: u32,
    pub connection_timeout_seconds: u64,
}

#[derive(Debug, Clone)]
pub struct JwtConfig {
    pub private_key: String,
    pub public_key: String,
    /// The previous public key, still accepted while keys are rotated.
    pub previous_public_key: Option<String>,
    /// The id of the current key.
    pub key_id: String,
    pub access_token_expiration_minutes: i64,
    pub refresh_token_expiration_days: i64,
    pub issuer: String,
}

#[derive(Debug, Clone)]
pub struct OAuthConfig {
    pub google: GoogleOAuthConfig,
    pub github: GitHubOAuthConfig,
}

#[derive(Debug, Clone)]
pub struct GoogleOAuthConfig {
    pub client_id: String,
    pub client_secret: String,
    pub redirect_uri: String,
}

#[derive(Debug, Clone)]
pub struct GitHubOAuthConfig {
    pub client_id: String,
    pub client_secret: String,
    pub redirect_uri: String,
}

#[derive(Debug, Clone)]
pub struct SecurityConfig {
    pub encryption_key: String,
    pub api_key_salt: String,
    pub require_https: bool,
}

#[derive(Debug, Clone, Copy)]
pub struct RateLimitConfig {
    pub enabled: bool,
    pub global_per_minute: u32,
    pub oauth_init_per_minute: u32,
}

#[derive(Debug, Clone)]
pub struct LoggingConfig {
    pub level: String,
    pub format: String,
}

#[derive(Debug, Clone)]
pub struct CorsConfig {
    pub default_allowed_origins: String,
}

#[derive(Debug, Clone)]
pub struct IpFilterConfig {
    pub enable_ip_whitelist: bool,
    pub admin_ip_whitelist: String,
}

pub fn default_request_timeout() -> (r: u64)
    ensures
        r == 30,
{
    30
}

pub fn default_max_connections() -> (r: u32)
    ensures
        r == 5,
{
    5
}

pub fn default_min_connections() -> (r: u32)
    ensures
        r == 1,
{
    1
}

pub fn default_connection_timeout() -> (r: u64)
    ensures
        r == 5,
{
    5
}

pub fn default_access_token_expiration() -> (r: i64)
    ensures
        r == 15,
{
    15
}

pub fn default_refresh_token_expiration() -> (r: i64)
    ensures
        r == 30,
{
    30
}

pub fn default_enabled() -> (r: bool)
    ensures
        r == true,
{
    true
}

pub fn default_require_https() -> (r: bool)
    ensures
        r == false,
{
    false
}

pub fn default_global_per_minute() -> (r: u32)
    ensures
        r == 100,
{
    100
}

pub fn default_oauth_init_per_minute() -> (r: u32)
    ensures
        r == 10,
{
    10
}

pub fn default_key_id() -> (r: String)
    ensures
        r@ == "key-1"@,
{
    owned("key-1")
}

pub fn default_log_level() -> (r: String)
    ensures
        r@ == "info"@,
{
    owned("info")
}

pub fn default_log_format() -> (r: String)
    ensures
        r@ == "pretty"@,
{
    owned("pretty")
}

pub fn default_admin_ip_whitelist() -> (r: String)
    ensures
        r@ == "127.0.0.1,::1"@,
{
    owned("127.0.0.1,::1")
}

} // verus!
