use base64::Engine;
use auth_service::error::AppError;
use auth_service::security::api_key::{generate_csrf_state, generate_random_string, ApiKeyService};
use auth_service::security::encryption::{generate_encryption_key, EncryptionService};
use auth_service::security::jwt::{
    access_claims, access_token_seconds, decode_pem_key, refresh_claims, refresh_family, retry_with_previous,
    verification_result, verification_target, DecodeFailure, TokenRequest, TokenSettings,
};
use auth_service::time::Instant;

fn url_safe(s: &str) -> bool {
    s.chars().all(|c| c.is_ascii_alphanumeric() || c == '-' || c == '_')
}

#[test]
fn random_strings_have_encoded_length() {
    assert_eq!(generate_random_string(0), "");
    assert_eq!(generate_random_string(1).len(), 2);
    assert_eq!(generate_random_string(2).len(), 3);
    assert_eq!(generate_random_string(3).len(), 4);
    let s = generate_random_string(32);
    assert_eq!(s.len(), 43);
    assert!(url_safe(&s));
}

#[test]
fn csrf_states_are_fresh() {
    let a = generate_csrf_state();
    let b = generate_csrf_state();
    assert_eq!(a.len(), 43);
    assert!(url_safe(&a));
    assert_ne!(a, b);
}

#[test]
fn api_key_shape_and_hash() {
    let service = ApiKeyService::new();
    let (key, prefix, hash) = service.generate_api_key();
    assert!(key.starts_with("bib_"));
    assert_eq!(key.len(), 47);
    assert_eq!(prefix, key[..8]);
    assert!(service.verify_api_key(&key, &hash));
    assert!(!service.verify_api_key("bib_wrong", &hash));
    assert!(!service.verify_api_key(&key, "not a phc string"));
}

#[test]
fn hash_then_verify() {
    let service = ApiKeyService::new();
    let h = service.hash_api_key("secret-key");
    assert!(h.starts_with("$argon2"));
    assert!(service.verify_api_key("secret-key", &h));
    let h2 = service.hash_api_key("secret-key");
    assert_ne!(h, h2);
    assert!(service.verify_api_key("secret-key", &h2));
}

#[test]
fn prefix_is_first_eight_bytes() {
    assert_eq!(ApiKeyService::get_prefix("bib_abcdefgh"), "bib_abcd");
    assert_eq!(ApiKeyService::get_prefix("short"), "short");
    assert_eq!(ApiKeyService::get_prefix(""), "");
}

#[test]
fn encryption_round_trip() {
    let key = generate_encryption_key();
    assert_eq!(key.len(), 44);
    let service = EncryptionService::new(&key).unwrap();
    for text in ["", "hello", "ünïcödé ✓", "a longer access token value 1234567890"] {
        let sealed = service.encrypt(text).unwrap();
        assert_ne!(sealed, text);
        assert_eq!(service.decrypt(&sealed).unwrap(), text);
    }
    // two sealings of one text differ (fresh nonces)
    assert_ne!(service.encrypt("same").unwrap(), service.encrypt("same").unwrap());
}

#[test]
fn encryption_key_errors() {
    match EncryptionService::new("not base64!") {
        Err(AppError::InternalServerError(m)) => assert!(m.starts_with("Invalid encryption key encoding: ")),
        _ => panic!("expected an encoding error"),
    }
    // 16 bytes are too few
    match EncryptionService::new("AAAAAAAAAAAAAAAAAAAAAA==") {
        Err(AppError::InternalServerError(m)) => {
            assert_eq!(m, "Encryption key must be at least 32 bytes when decoded")
        }
        _ => panic!("expected a length error"),
    }
}

#[test]
fn decryption_errors() {
    let service = EncryptionService::new(&generate_encryption_key()).unwrap();
    let other = EncryptionService::new(&generate_encryption_key()).unwrap();
    match service.decrypt("%%%") {
        Err(AppError::InternalServerError(m)) => assert!(m.starts_with("Invalid encrypted data encoding: ")),
        _ => panic!("expected an encoding error"),
    }
    match service.decrypt("AAAA") {
        Err(AppError::InternalServerError(m)) => assert_eq!(m, "Encrypted data too short"),
        _ => panic!("expected a length error"),
    }
    let sealed = other.encrypt("for another key").unwrap();
    match service.decrypt(&sealed) {
        Err(AppError::InternalServerError(m)) => assert_eq!(m, "Decryption failed"),
        _ => panic!("expected an authentication error"),
    }
}

fn settings() -> TokenSettings {
    TokenSettings {
        key_id: "k1".to_string(),
        issuer: "auth-service".to_string(),
        access_token_expiration_minutes: 15,
        refresh_token_expiration_days: 30,
    }
}

#[test]
fn access_claims_content() {
    let now = Instant { secs: 1_700_000_000, nanos: 500 };
    let c = access_claims(&settings(), "u1", "a@b.c", Some("proj"), now, "jti-1".to_string());
    assert_eq!(c.sub, "u1");
    assert_eq!(c.email, "a@b.c");
    assert_eq!(c.iss, "auth-service");
    assert_eq!(c.aud, "auth-service");
    assert_eq!(c.iat, 1_700_000_000);
    assert_eq!(c.exp, 1_700_000_000 + 15 * 60);
    assert_eq!(c.jti, "jti-1");
    assert_eq!(c.client_project.as_deref(), Some("proj"));
    assert_eq!(access_token_seconds(&settings()), 900);
}

#[test]
fn refresh_claims_content() {
    let now = Instant { secs: 1_700_000_000, nanos: 0 };
    let c = refresh_claims(&settings(), "u1", None, "fam", 3, Some("hash"), now, "jti-2".to_string());
    assert_eq!(c.aud, "auth-service-refresh");
    assert_eq!(c.exp, 1_700_000_000 + 30 * 86_400);
    assert_eq!(c.family_id, "fam");
    assert_eq!(c.generation, 3);
    assert_eq!(c.client_project, None);
    assert_eq!(c.device_hash.as_deref(), Some("hash"));
}

#[test]
fn key_rotation_decisions() {
    assert!(retry_with_previous(DecodeFailure::Invalid, true));
    assert!(!retry_with_previous(DecodeFailure::Expired, true));
    assert!(!retry_with_previous(DecodeFailure::Invalid, false));
    assert_eq!(verification_result::<u8>(Ok(1), None).unwrap(), 1);
    assert_eq!(verification_result::<u8>(Err(DecodeFailure::Invalid), Some(Ok(2))).unwrap(), 2);
    assert!(matches!(verification_result::<u8>(Err(DecodeFailure::Expired), None), Err(AppError::TokenExpired)));
    assert!(matches!(
        verification_result::<u8>(Err(DecodeFailure::Invalid), Some(Err(DecodeFailure::Expired))),
        Err(AppError::InvalidToken)
    ));
}

#[test]
fn pem_keys() {
    // base64 of "-----BEGIN KEY-----\nabc\n-----END KEY-----\n"
    let b64 = "LS0tLS1CRUdJTiBLRVktLS0tLQphYmMKLS0tLS1FTkQgS0VZLS0tLS0K";
    assert_eq!(decode_pem_key(b64), "-----BEGIN KEY-----\nabc\n-----END KEY-----\n");
    assert_eq!(decode_pem_key("  LS0tLS1CRUdJTiBLRVktLS0tLQphYmMKLS0tLS1FTkQgS0VZLS0tLS0K \n"), "-----BEGIN KEY-----\nabc\n-----END KEY-----\n");
    assert_eq!(decode_pem_key("-----BEGIN\\nX\\n-----END"), "-----BEGIN\nX\n-----END");
    assert_eq!(decode_pem_key("plain\\ntext"), "plain\ntext");
}

#[test]
fn api_key_hash_form_and_malformed_hashes() {
    let service = ApiKeyService::new();
    let (key, _, hash) = service.generate_api_key();
    assert!(hash.starts_with("$argon2id$"));
    let again = service.hash_api_key(&key);
    assert!(again.starts_with("$argon2id$"));
    assert!(service.verify_api_key(&key, &again));
    assert!(!service.verify_api_key(&key, "argon2id$v=19$garbage"));
    assert!(!service.verify_api_key(&key, ""));
}

#[test]
fn verification_targets_and_families() {
    let s = settings();
    assert_eq!(verification_target(&s, false), ("auth-service".to_string(), "auth-service".to_string()));
    assert_eq!(verification_target(&s, true), ("auth-service".to_string(), "auth-service-refresh".to_string()));
    let mut req = TokenRequest {
        user_id: "u".to_string(),
        email: "e".to_string(),
        client_project: None,
        family_id: None,
        generation: 0,
        device_hash: None,
    };
    assert_eq!(refresh_family(&req, "fresh".to_string()), "fresh");
    req.family_id = Some("fam".to_string());
    assert_eq!(refresh_family(&req, "fresh".to_string()), "fam");
}

#[test]
fn tampered_ciphertext_is_refused() {
    let service = EncryptionService::new(&generate_encryption_key()).unwrap();
    let sealed = service.encrypt("secret").unwrap();
    let mut bytes = base64::engine::general_purpose::STANDARD.decode(&sealed).unwrap();
    let last = bytes.len() - 1;
    bytes[last] ^= 1;
    let tampered = base64::engine::general_purpose::STANDARD.encode(&bytes);
    match service.decrypt(&tampered) {
        Err(AppError::InternalServerError(m)) => assert_eq!(m, "Decryption failed"),
        _ => panic!("expected an authentication error"),
    }
    assert_eq!(service.decrypt(&sealed).unwrap(), "secret");
}
