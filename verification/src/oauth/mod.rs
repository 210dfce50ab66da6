//! OAuth login: provider data and the `state` tokens of pending logins.

pub mod github;
pub mod provider;
pub mod state;

pub use state::{OAuthStateData, OAuthStateManager};
pub use provider::{OAuthTokens, OAuthUserInfo};
