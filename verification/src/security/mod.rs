//! Keys, random identifiers, API-key hashing and symmetric encryption.

pub mod api_key;
pub mod encoding;
pub mod encryption;
pub mod jwt;
pub mod random;

pub use api_key::{generate_csrf_state, generate_random_string, ApiKeyService};

pub use encryption::{generate_encryption_key, EncryptionService};
