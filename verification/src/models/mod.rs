pub mod api_key;
pub mod audit_log;
pub mod ip_filter;
pub mod jwt_claims;
pub mod oauth_provider;
pub mod user;

pub use api_key::{ApiKey, ApiKeyResponse, ValidatedApiKey};
pub use audit_log::{AuditEventType, AuditLog, AuditLogBuilder};
pub use ip_filter::{FilterType, IpFilter};
pub use jwt_claims::{
    AccessTokenClaims, DeviceInfo, RefreshTokenClaims, RefreshTokenFamily, RefreshTokenRequest,
    RevokeTokenRequest, TokenPair, ValidateTokenRequest, ValidateTokenResponse,
};
pub use oauth_provider::{GitHubEmail, GitHubUserInfo, GoogleUserInfo, OAuthProvider, ProviderName};
pub use user::{CreateUserFromOAuth, UpdateUserRequest, User, UserProfile};
