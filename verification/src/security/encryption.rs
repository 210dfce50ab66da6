//! AES-256-GCM encryption of texts under a key given in standard base64.
//! A sealed text is the base64 of a random 12-byte nonce followed by the
//! ciphertext and its tag.

use vstd::prelude::*;
use vstd::string::StringSliceAdditionalSpecFns;
use vstd::utf8::{decode_utf8, encode_utf8, valid_utf8};
use aes_gcm::aead::{Aead, KeyInit};
use crate::error::AppError;
use crate::security::encoding::{
    string_from_utf8, utf8_error_text, base64_error_text, base64_std, base64_std_decode, decode_std, encode_std, padded_len,
};
use crate::security::random::random_bytes;
use crate::text::owned;

verus! {

/// The largest plaintext, in bytes, that aes-gcm seals (`P_MAX`).
pub const PLAINTEXT_MAX: u64 = 68_719_476_736;

/// What aes-gcm's `Aes256Gcm` makes of a plaintext under a 32-byte key and
/// a 12-byte nonce (no associated data): the ciphertext followed by the
/// 16-byte tag.
pub uninterp spec fn aes_seal(key: Seq<u8>, nonce: Seq<u8>, plaintext: Seq<u8>) -> Seq<u8>;

/// What aes-gcm's `Aes256Gcm` makes of a ciphertext with its tag under a
/// 32-byte key and a 12-byte nonce: the plaintext, or `None` when the tag
/// does not authenticate it.
pub uninterp spec fn aes_open(key: Seq<u8>, nonce: Seq<u8>, ciphertext: Seq<u8>) -> Option<Seq<u8>>;

/// Seals a plaintext with AES-256-GCM (aes-gcm's `Aes256Gcm`, built from
/// the key by `new_from_slice`, then `encrypt`). It refuses plaintexts
/// longer than `P_MAX` bytes and no others (it checks nothing else); the
/// result is named and is 16 bytes (the tag) longer than the plaintext.
#[verifier::external_body]
fn aes_seal_bytes(key: &[u8], nonce: &[u8], plaintext: &[u8]) -> (r: Option<Vec<u8>>)
    requires
        key@.len() == 32,
        nonce@.len() == 12,
    ensures
        r is None <==> plaintext@.len() > PLAINTEXT_MAX,
        r matches Some(c) ==> c@ == aes_seal(key@, nonce@, plaintext@) && c@.len() == plaintext@.len() + 16,
{
    let cipher = aes_gcm::Aes256Gcm::new_from_slice(key).ok()?;
    cipher.encrypt(aes_gcm::Nonce::from_slice(nonce), plaintext).ok()
}

/// Opens a ciphertext with AES-256-GCM (aes-gcm's `Aes256Gcm`, built from
/// the key by `new_from_slice`, then `decrypt`). The outcome is named;
/// stated besides is what authenticated encryption promises: what was
/// sealed under the same key and nonce opens to its plaintext.
#[verifier::external_body]
fn aes_open_bytes(key: &[u8], nonce: &[u8], ciphertext: &[u8]) -> (r: Option<Vec<u8>>)
    requires
        key@.len() == 32,
        nonce@.len() == 12,
    ensures
        r matches Some(p) ==> aes_open(key@, nonce@, ciphertext@) == Some(p@),
        r is None ==> aes_open(key@, nonce@, ciphertext@) is None,
        r is None ==> forall|p: Seq<u8>| p.len() <= PLAINTEXT_MAX ==> ciphertext@ != #[trigger] aes_seal(key@, nonce@, p),
        r matches Some(q) ==> forall|p: Seq<u8>| p.len() <= PLAINTEXT_MAX && ciphertext@ == #[trigger] aes_seal(key@, nonce@, p) ==> q@ == p,
{
    let cipher = aes_gcm::Aes256Gcm::new_from_slice(key).ok()?;
    cipher.decrypt(aes_gcm::Nonce::from_slice(nonce), ciphertext).ok()
}

/// An internal error carrying the given message.
pub open spec fn internal(e: AppError, msg: Seq<char>) -> bool {
    e matches AppError::InternalServerError(m) && m@ == msg
}

/// The key that a base64 key text gives: the first 32 of its decoded bytes,
/// or the message of the error when it does not decode or is too short.
pub open spec fn key_spec(text: Seq<char>) -> Result<Seq<u8>, Seq<char>> {
    match base64_std_decode(text) {
        None => Err("Invalid encryption key encoding: "@ + base64_error_text(text)),
        Some(d) => if d.len() < 32 {
            Err("Encryption key must be at least 32 bytes when decoded"@)
        } else {
            Ok(d.take(32))
        },
    }
}

/// The plaintext that a sealed text gives under `key`, or the message of
/// the error: it does not decode, it is shorter than a nonce, it does not
/// authenticate, or its plaintext is no UTF-8.
pub open spec fn decrypt_spec(key: Seq<u8>, text: Seq<char>) -> Result<Seq<char>, Seq<char>> {
    match base64_std_decode(text) {
        None => Err("Invalid encrypted data encoding: "@ + base64_error_text(text)),
        Some(d) => if d.len() < 12 {
            Err("Encrypted data too short"@)
        } else {
            match aes_open(key, d.take(12), d.skip(12)) {
                None => Err("Decryption failed"@),
                Some(p) => if valid_utf8(p) {
                    Ok(decode_utf8(p))
                } else {
                    Err("Invalid UTF-8 in decrypted data: "@ + utf8_error_text(p))
                },
            }
        },
    }
}

/// The sealed text of `plaintext` under `key` with `nonce`.
pub open spec fn sealed_text(key: Seq<u8>, nonce: Seq<u8>, plaintext: Seq<char>) -> Seq<char> {
    base64_std(nonce + aes_seal(key, nonce, encode_utf8(plaintext)))
}

/// Whether `text` is `plaintext` sealed under `key` with a 12-byte nonce
/// (and the plaintext within what aes-gcm seals).
pub open spec fn sealed_by(text: Seq<char>, key: Seq<u8>, nonce: Seq<u8>, plaintext: Seq<char>) -> bool {
    &&& nonce.len() == 12
    &&& encode_utf8(plaintext).len() <= PLAINTEXT_MAX
    &&& text == sealed_text(key, nonce, plaintext)
}

/// Encryption and decryption under one 32-byte key.
pub struct EncryptionService {
    key: Vec<u8>,
}

impl EncryptionService {
    #[verifier::type_invariant]
    spec fn key_is_32_bytes(&self) -> bool {
        self.key@.len() == 32
    }

    pub closed spec fn key(&self) -> Seq<u8> {
        self.key@
    }

    /// A service for the key given as standard base64 of at least 32 bytes
    /// (only the first 32 are used).
    pub fn new(key: &str) -> (r: Result<Self, AppError>)
        ensures
            r matches Ok(s) ==> key_spec(key@) == Ok::<Seq<u8>, Seq<char>>(s.key()),
            r matches Err(e) ==> (key_spec(key@) matches Err(m) && internal(e, m)),
            forall|b: Seq<u8>|
                b.len() >= 32 && key@ == #[trigger] base64_std(b) ==> (r matches Ok(s) && s.key()
                    == b.take(32)),
    {
        proof {
            reveal_strlit("Invalid encryption key encoding: ");
            reveal_strlit("Encryption key must be at least 32 bytes when decoded");
        }
        match decode_std(key) {
            Err(t) => {
                let mut m = owned("Invalid encryption key encoding: ");
                m.append(t.as_str());
                Err(AppError::InternalServerError(m))
            },
            Ok(d) => {
                if d.len() < 32 {
                    Err(
                        AppError::InternalServerError(
                            owned("Encryption key must be at least 32 bytes when decoded"),
                        ),
                    )
                } else {
                    let mut k: Vec<u8> = Vec::new();
                    let mut i: usize = 0;
                    while i < 32
                        invariant
                            i <= 32,
                            d@.len() >= 32,
                            k@ == d@.take(i as int),
                        decreases 32 - i,
                    {
                        k.push(d[i]);
                        i = i + 1;
                        assert(k@ =~= d@.take(i as int));
                    }
                    Ok(EncryptionService { key: k })
                }
            },
        }
    }

    /// Seals a text under a fresh random nonce. Only a plaintext longer
    /// than aes-gcm takes is refused.
    pub fn encrypt(&self, plaintext: &str) -> (r: Result<String, AppError>)
        requires
            padded_len(plaintext.spec_bytes().len() + 28) <= usize::MAX,
        ensures
            r matches Ok(s) ==> exists|nonce: Seq<u8>|
                nonce.len() == 12 && s@ == #[trigger] sealed_text(self.key(), nonce, plaintext@),
            r is Err <==> plaintext.spec_bytes().len() > PLAINTEXT_MAX,
            r matches Err(e) ==> internal(e, "Encryption failed: aead::Error"@),
    {
        proof {
            use_type_invariant(self);
            reveal_strlit("Encryption failed: aead::Error");
        }
        let nonce = random_bytes(12);
        let bytes = plaintext.as_bytes();
        match aes_seal_bytes(self.key.as_slice(), nonce.as_slice(), bytes) {
            None => Err(AppError::InternalServerError(owned("Encryption failed: aead::Error"))),
            Some(ct) => {
                let mut payload: Vec<u8> = Vec::new();
                let mut i: usize = 0;
                while i < 12
                    invariant
                        i <= 12,
                        nonce@.len() == 12,
                        payload@ == nonce@.take(i as int),
                    decreases 12 - i,
                {
                    payload.push(nonce[i]);
                    i = i + 1;
                    assert(payload@ =~= nonce@.take(i as int));
                }
                let n = ct.len();
                let mut j: usize = 0;
                while j < n
                    invariant
                        j <= n,
                        n == ct@.len(),
                        nonce@.len() == 12,
                        payload@ == nonce@ + ct@.take(j as int),
                    decreases n - j,
                {
                    payload.push(ct[j]);
                    j = j + 1;
                    assert(payload@ =~= nonce@ + ct@.take(j as int));
                }
                assert(ct@.take(n as int) =~= ct@);
                let s = encode_std(payload.as_slice());
                assert(s@ == sealed_text(self.key(), nonce@, plaintext@));
                Ok(s)
            },
        }
    }

    /// Opens a sealed text. A text that this service's key sealed opens to
    /// the plaintext it was made of.
    pub fn decrypt(&self, encrypted: &str) -> (r: Result<String, AppError>)
        ensures
            r matches Ok(s) ==> decrypt_spec(self.key(), encrypted@) == Ok::<Seq<char>, Seq<char>>(s@),
            r matches Err(e) ==> (decrypt_spec(self.key(), encrypted@) matches Err(m) && internal(e, m)),
            forall|nonce: Seq<u8>, p: Seq<char>|
                #[trigger] sealed_by(encrypted@, self.key(), nonce, p) ==> (r matches Ok(s) && s@ == p),
    {
        proof {
            use_type_invariant(self);
            reveal_strlit("Invalid encrypted data encoding: ");
            reveal_strlit("Encrypted data too short");
            reveal_strlit("Decryption failed");
            reveal_strlit("Invalid UTF-8 in decrypted data: ");
        }
        match decode_std(encrypted) {
            Err(t) => {
                proof {
                    assert forall|nonce: Seq<u8>, p: Seq<char>|
                        #[trigger] sealed_by(encrypted@, self.key(), nonce, p) implies false by {
                        let b = nonce + aes_seal(self.key(), nonce, encode_utf8(p));
                        assert(encrypted@ != base64_std(b));
                    }
                }
                let mut m = owned("Invalid encrypted data encoding: ");
                m.append(t.as_str());
                Err(AppError::InternalServerError(m))
            },
            Ok(data) => {
                proof {
                    assert forall|nonce: Seq<u8>, p: Seq<char>|
                        #[trigger] sealed_by(encrypted@, self.key(), nonce, p) implies data@ == nonce
                        + aes_seal(self.key(), nonce, encode_utf8(p)) by {
                        let b = nonce + aes_seal(self.key(), nonce, encode_utf8(p));
                        assert(encrypted@ == base64_std(b));
                    }
                }
                if data.len() < 12 {
                    return Err(AppError::InternalServerError(owned("Encrypted data too short")));
                }
                let mut nonce: Vec<u8> = Vec::new();
                let mut i: usize = 0;
                while i < 12
                    invariant
                        i <= 12,
                        data@.len() >= 12,
                        nonce@ == data@.take(i as int),
                    decreases 12 - i,
                {
                    nonce.push(data[i]);
                    i = i + 1;
                    assert(nonce@ =~= data@.take(i as int));
                }
                let n = data.len();
                let mut ct: Vec<u8> = Vec::new();
                let mut j: usize = 12;
                while j < n
                    invariant
                        12 <= j <= n,
                        n == data@.len(),
                        ct@ == data@.subrange(12, j as int),
                    decreases n - j,
                {
                    ct.push(data[j]);
                    j = j + 1;
                    assert(ct@ =~= data@.subrange(12, j as int));
                }
                assert(ct@ =~= data@.skip(12));
                proof {
                    assert forall|nn: Seq<u8>, pp: Seq<char>|
                        #[trigger] sealed_by(encrypted@, self.key(), nn, pp) implies nn == nonce@
                        && ct@ == aes_seal(self.key(), nn, encode_utf8(pp)) by {
                        assert(data@ == nn + aes_seal(self.key(), nn, encode_utf8(pp)));
                        assert(nonce@ =~= nn);
                        assert(ct@ =~= aes_seal(self.key(), nn, encode_utf8(pp)));
                    }
                }
                match aes_open_bytes(self.key.as_slice(), nonce.as_slice(), ct.as_slice()) {
                    None => Err(AppError::InternalServerError(owned("Decryption failed"))),
                    Some(p) => {
                    proof {
                        assert forall|nn: Seq<u8>, pp: Seq<char>|
                            #[trigger] sealed_by(encrypted@, self.key(), nn, pp) implies p@ == encode_utf8(pp) by {
                            assert(ct@ == aes_seal(self.key(), nonce@, encode_utf8(pp)));
                        }
                        assert forall|nn: Seq<u8>, pp: Seq<char>|
                            #[trigger] sealed_by(encrypted@, self.key(), nn, pp) implies valid_utf8(p@) && decode_utf8(p@) == pp by {
                            vstd::utf8::encode_utf8_valid_utf8(pp);
                            vstd::utf8::encode_utf8_decode_utf8(pp);
                        }
                    }
                    match string_from_utf8(p) {
                        Ok(s) => Ok(s),
                        Err(t) => {
                            let mut m = owned("Invalid UTF-8 in decrypted data: ");
                            m.append(t.as_str());
                            Err(AppError::InternalServerError(m))
                        },
                    }
                    },
                }
            },
        }
    }
}

/// A fresh key: 32 random bytes in standard base64 (44 characters).
pub fn generate_encryption_key() -> (r: String)
    ensures
        exists|b: Seq<u8>| b.len() == 32 && r@ == #[trigger] base64_std(b),
        r@.len() == 44,
{
    let key = random_bytes(32);
    encode_std(key.as_slice())
}

} // verus!
