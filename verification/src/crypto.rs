use vstd::prelude::*;
use vstd::utf8::encode_utf8;
use vstd::utf8::is_ascii_chars;
use argon2::password_hash::rand_core::OsRng;
use argon2::password_hash::{PasswordHash, PasswordHasher, PasswordVerifier, SaltString};
use argon2::Argon2;
use chacha20poly1305::aead::{Aead, AeadCore, Payload};
use chacha20poly1305::{ChaCha20Poly1305, KeyInit, Nonce};
use crate::domain::{EncryptedField, MasterRecord};
use crate::errors::AppError;

verus! {

/// The cryptography that the vault needs: a master-password check, a key
/// derived from the master password, and authenticated encryption.
///
/// The spec functions describe an implementation; the contracts tie its
/// methods to them.
pub trait CryptoPort {
    /// What checking `master` against `record` answers; `None` where the
    /// record cannot be read.
    spec fn verdict(master: Seq<char>, record: MasterRecord) -> Option<bool>;

    /// Whether a master record can be made for `master`.
    spec fn creatable(master: Seq<char>) -> bool;

    /// Whether a key can be derived from `master` with `salt`.
    spec fn key_derivable(master: Seq<char>, salt: Seq<u8>) -> bool;

    /// The key derived from `master` with `salt`.
    spec fn entry_key(master: Seq<char>, salt: Seq<u8>) -> Seq<u8>;

    /// Whether a plaintext of this length can be sealed.
    spec fn sealable(len: nat) -> bool;

    /// Whether `field` is a sealing of `plaintext` under `key` and `aad`.
    spec fn sealed(key: Seq<u8>, plaintext: Seq<u8>, aad: Seq<u8>, field: EncryptedField) -> bool;

    /// What opening `field` under `key` and `aad` gives; `None` where it fails.
    spec fn opened(key: Seq<u8>, field: EncryptedField, aad: Seq<u8>) -> Option<Seq<u8>>;

    /// A sealed plaintext opens again.
    proof fn lemma_sealed_opens(key: Seq<u8>, plaintext: Seq<u8>, aad: Seq<u8>, field: EncryptedField)
        requires
            Self::sealed(key, plaintext, aad, field),
        ensures
            Self::opened(key, field, aad) == Some(plaintext),
    ;

    /// What opens can be sealed again.
    proof fn lemma_opened_is_sealable(key: Seq<u8>, field: EncryptedField, aad: Seq<u8>)
        requires
            Self::opened(key, field, aad) is Some,
        ensures
            Self::sealable(Self::opened(key, field, aad)->0.len()),
    ;

    /// A sealed plaintext can be sealed again.
    proof fn lemma_sealed_is_sealable(key: Seq<u8>, plaintext: Seq<u8>, aad: Seq<u8>, field: EncryptedField)
        requires
            Self::sealed(key, plaintext, aad, field),
        ensures
            Self::sealable(plaintext.len()),
    ;

    /// Makes a fresh record for a master password.
    fn create_master_record(&self, master_password: &str) -> (r: Result<MasterRecord, AppError>)
        ensures
            r is Ok <==> Self::creatable(master_password@),
            r matches Ok(rec) ==> Self::verdict(master_password@, rec) == Some(true) && Self::key_derivable(
                master_password@,
                rec.key_salt@,
            ),
            r matches Err(e) ==> e == AppError::Crypto,
    ;

    /// Checks a master password against a record.
    fn verify_master_password(&self, master_password: &str, record: &MasterRecord) -> (r: Result<bool, AppError>)
        ensures
            match r {
                Ok(b) => Self::verdict(master_password@, *record) == Some(b),
                Err(e) => Self::verdict(master_password@, *record) is None && e == AppError::Crypto,
            },
    ;

    /// Derives the key that seals the entries.
    fn derive_entry_key(&self, master_password: &str, key_salt: &[u8]) -> (r: Result<[u8; 32], AppError>)
        ensures
            r is Ok <==> Self::key_derivable(master_password@, key_salt@),
            r matches Ok(k) ==> k@ == Self::entry_key(master_password@, key_salt@),
            r matches Err(e) ==> e == AppError::Crypto,
    ;

    /// Seals a plaintext.
    fn encrypt(&self, key: &[u8; 32], plaintext: &[u8], aad: &[u8]) -> (r: Result<EncryptedField, AppError>)
        ensures
            r is Ok <==> Self::sealable(plaintext@.len()),
            r matches Ok(f) ==> Self::sealed(key@, plaintext@, aad@, f),
            r matches Err(e) ==> e == AppError::Crypto,
    ;

    /// Opens a sealed field; what was sealed comes back.
    fn decrypt(&self, key: &[u8; 32], field: &EncryptedField, aad: &[u8]) -> (r: Result<Vec<u8>, AppError>)
        ensures
            match r {
                Ok(p) => Self::opened(key@, *field, aad@) == Some(p@),
                Err(e) => Self::opened(key@, *field, aad@) is None && e == AppError::Crypto,
            },
            forall|pt: Seq<u8>| #[trigger]
                Self::sealed(key@, pt, aad@, *field) ==> (r matches Ok(p) && p@ == pt),
    ;
}

/// The PHC string that Argon2id with its default parameters makes of a
/// password and a B64 salt (`PasswordHasher::hash_password`).
pub uninterp spec fn argon2_phc(password: Seq<u8>, salt: Seq<char>) -> Seq<char>;

/// What `PasswordVerifier::verify_password` with default Argon2id answers for
/// a password and a PHC string; `None` where the string does not parse.
pub uninterp spec fn argon2_verdict(password: Seq<u8>, phc: Seq<char>) -> Option<bool>;

/// The 32-byte key that Argon2id with its default parameters derives from a
/// password and a salt (`Argon2::hash_password_into`).
pub uninterp spec fn argon2_key(password: Seq<u8>, salt: Seq<u8>) -> Seq<u8>;

/// The ciphertext with its tag that ChaCha20-Poly1305 makes of a plaintext.
pub uninterp spec fn chacha_seal(key: Seq<u8>, nonce: Seq<u8>, plaintext: Seq<u8>, aad: Seq<u8>) -> Seq<u8>;

/// What ChaCha20-Poly1305 opens from a ciphertext; `None` where the tag does
/// not match.
pub uninterp spec fn chacha_open(key: Seq<u8>, nonce: Seq<u8>, ciphertext: Seq<u8>, aad: Seq<u8>) -> Option<Seq<u8>>;

/// The number of plaintext bytes from which ChaCha20-Poly1305 refuses to seal:
/// 2^32 - 1 blocks of 64 bytes.
pub open spec fn chacha_limit() -> nat {
    274877906880
}

/// Whether `c` is a character of the standard base64 alphabet.
pub open spec fn is_b64_char(c: char) -> bool {
    ('A' <= c <= 'Z') || ('a' <= c <= 'z') || ('0' <= c <= '9') || c == '+' || c == '/'
}

/// Whether `s` is the unpadded base64 encoding of 16 bytes: 22 characters of
/// the alphabet, the last of which carries two bits and four zero bits.
pub open spec fn b64_salt(s: Seq<char>) -> bool {
    &&& s.len() == 22
    &&& forall|i: int| 0 <= i < s.len() ==> is_b64_char(#[trigger] s[i])
    &&& (s[21] == 'A' || s[21] == 'Q' || s[21] == 'g' || s[21] == 'w')
}

/// `SaltString::generate` with the operating system's generator: 16 random
/// bytes in unpadded B64, that is 22 characters of the base64 alphabet.
/// Nothing is claimed of which bytes.
#[verifier::external_body]
fn generate_salt() -> (s: String)
    ensures
        b64_salt(s@),
        is_ascii_chars(s@),
{
    SaltString::generate(&mut OsRng).as_str().to_string()
}

/// `PasswordHasher::hash_password` of default Argon2id, with the salt given in
/// B64, written as a PHC string. It refuses a salt that is not B64 of an
/// admitted length, and a password longer than 2^32 - 1 bytes; a canonical
/// B64 salt of 16 bytes with a password of at most 2^32 - 1 bytes is hashed.
/// The string it makes is accepted by `verify_password` for the same password.
#[verifier::external_body]
fn phc_hash(password: &[u8], salt: &str) -> (r: Result<String, ()>)
    ensures
        b64_salt(salt@) && password@.len() <= 0xFFFF_FFFF ==> r is Ok,
        r matches Ok(h) ==> h@ == argon2_phc(password@, salt@),
        r matches Ok(h) ==> argon2_verdict(password@, h@) == Some(true),
        r matches Ok(h) ==> password@.len() <= 0xFFFF_FFFF,
{
    let salt = SaltString::from_b64(salt).map_err(|_| ())?;
    Argon2::default().hash_password(password, &salt).map(|h| h.to_string()).map_err(|_| ())
}

/// `PasswordHash::new` followed by `PasswordVerifier::verify_password` of
/// default Argon2id.
#[verifier::external_body]
fn phc_verify(password: &[u8], phc: &str) -> (r: Result<bool, ()>)
    ensures
        r matches Ok(b) ==> argon2_verdict(password@, phc@) == Some(b),
        r is Err ==> argon2_verdict(password@, phc@) is None,
{
    match PasswordHash::new(phc) {
        Ok(parsed) => Ok(Argon2::default().verify_password(password, &parsed).is_ok()),
        Err(_) => Err(()),
    }
}

/// `Argon2::hash_password_into` of default Argon2id into 32 bytes. It refuses
/// exactly a salt shorter than 8 or longer than 2^32 - 1 bytes and a password
/// longer than 2^32 - 1 bytes.
#[verifier::external_body]
fn argon2_derive(password: &[u8], salt: &[u8]) -> (r: Result<[u8; 32], ()>)
    ensures
        r is Ok <==> (8 <= salt@.len() <= 0xFFFF_FFFF && password@.len() <= 0xFFFF_FFFF),
        r matches Ok(k) ==> k@ == argon2_key(password@, salt@),
{
    let mut out = [0u8; 32];
    Argon2::default().hash_password_into(password, salt, &mut out).map(|_| out).map_err(|_| ())
}

/// `AeadCore::generate_nonce` of ChaCha20-Poly1305 with the operating
/// system's generator: 12 random bytes.
#[verifier::external_body]
fn generate_nonce() -> (n: [u8; 12]) {
    ChaCha20Poly1305::generate_nonce(&mut OsRng).into()
}

/// `Aead::encrypt` of ChaCha20-Poly1305. It refuses exactly a plaintext of
/// 2^32 - 1 blocks of 64 bytes or more. What it seals opens again to the
/// plaintext under the same key, nonce and associated data.
#[verifier::external_body]
fn chacha_encrypt(key: &[u8; 32], nonce: &[u8; 12], plaintext: &[u8], aad: &[u8]) -> (r: Result<Vec<u8>, ()>)
    ensures
        r is Ok <==> plaintext@.len() < chacha_limit(),
        r matches Ok(c) ==> c@ == chacha_seal(key@, nonce@, plaintext@, aad@),
        r matches Ok(c) ==> chacha_open(key@, nonce@, c@, aad@) == Some(plaintext@),
{
    let cipher = ChaCha20Poly1305::new(key.into());
    cipher.encrypt(nonce.into(), Payload { msg: plaintext, aad }).map_err(|_| ())
}

/// `Aead::decrypt` of ChaCha20-Poly1305 (`Nonce::from_slice` panics on a nonce
/// that is not 12 bytes long). Like `encrypt`, it refuses a text of 2^32 - 1
/// blocks of 64 bytes or more, so what it opens is shorter.
#[verifier::external_body]
fn chacha_decrypt(key: &[u8; 32], nonce: &[u8], ciphertext: &[u8], aad: &[u8]) -> (r: Result<Vec<u8>, ()>)
    requires
        nonce@.len() == 12,
    ensures
        r matches Ok(p) ==> chacha_open(key@, nonce@, ciphertext@, aad@) == Some(p@),
        r is Err ==> chacha_open(key@, nonce@, ciphertext@, aad@) is None,
        r matches Ok(p) ==> p@.len() < chacha_limit(),
{
    let cipher = ChaCha20Poly1305::new(key.into());
    cipher.decrypt(Nonce::from_slice(nonce), Payload { msg: ciphertext, aad }).map_err(|_| ())
}

/// Argon2id for the master password and the entry key, ChaCha20-Poly1305
/// for the entries.
pub struct CryptoManager;

impl CryptoPort for CryptoManager {
    open spec fn verdict(master: Seq<char>, record: MasterRecord) -> Option<bool> {
        argon2_verdict(encode_utf8(master), record.hash@)
    }

    open spec fn creatable(master: Seq<char>) -> bool {
        encode_utf8(master).len() <= 0xFFFF_FFFF
    }

    open spec fn key_derivable(master: Seq<char>, salt: Seq<u8>) -> bool {
        8 <= salt.len() <= 0xFFFF_FFFF && encode_utf8(master).len() <= 0xFFFF_FFFF
    }

    open spec fn entry_key(master: Seq<char>, salt: Seq<u8>) -> Seq<u8> {
        argon2_key(encode_utf8(master), salt)
    }

    open spec fn sealable(len: nat) -> bool {
        len < chacha_limit()
    }

    open spec fn sealed(key: Seq<u8>, plaintext: Seq<u8>, aad: Seq<u8>, field: EncryptedField) -> bool {
        &&& plaintext.len() < chacha_limit()
        &&& field.nonce@.len() == 12
        &&& field.cipher@ == chacha_seal(key, field.nonce@, plaintext, aad)
        &&& chacha_open(key, field.nonce@, field.cipher@, aad) == Some(plaintext)
    }

    open spec fn opened(key: Seq<u8>, field: EncryptedField, aad: Seq<u8>) -> Option<Seq<u8>> {
        let o = chacha_open(key, field.nonce@, field.cipher@, aad);
        if field.nonce@.len() == 12 && o is Some && o->0.len() < chacha_limit() {
            o
        } else {
            None
        }
    }

    proof fn lemma_sealed_opens(key: Seq<u8>, plaintext: Seq<u8>, aad: Seq<u8>, field: EncryptedField) {
    }

    proof fn lemma_opened_is_sealable(key: Seq<u8>, field: EncryptedField, aad: Seq<u8>) {
    }

    proof fn lemma_sealed_is_sealable(key: Seq<u8>, plaintext: Seq<u8>, aad: Seq<u8>, field: EncryptedField) {
    }

    fn create_master_record(&self, master_password: &str) -> (r: Result<MasterRecord, AppError>) {
        let salt = generate_salt();
        let hash = match phc_hash(master_password.as_bytes(), salt.as_str()) {
            Ok(h) => h,
            Err(_) => return Err(AppError::Crypto),
        };
        let key_salt = generate_salt();
        let key_salt_text: &str = key_salt.as_str();
        let key_salt_bytes = key_salt_text.as_bytes();
        proof {
            vstd::string::is_ascii_spec_bytes(key_salt_text);
        }
        let rec = MasterRecord {
            hash,
            master_salt: vstd::slice::slice_to_vec(salt.as_str().as_bytes()),
            key_salt: vstd::slice::slice_to_vec(key_salt_bytes),
        };
        Ok(rec)
    }

    fn verify_master_password(&self, master_password: &str, record: &MasterRecord) -> (r: Result<bool, AppError>) {
        match phc_verify(master_password.as_bytes(), record.hash.as_str()) {
            Ok(b) => Ok(b),
            Err(_) => Err(AppError::Crypto),
        }
    }

    fn derive_entry_key(&self, master_password: &str, key_salt: &[u8]) -> (r: Result<[u8; 32], AppError>) {
        match argon2_derive(master_password.as_bytes(), key_salt) {
            Ok(k) => Ok(k),
            Err(_) => Err(AppError::Crypto),
        }
    }

    fn encrypt(&self, key: &[u8; 32], plaintext: &[u8], aad: &[u8]) -> (r: Result<EncryptedField, AppError>) {
        let nonce = generate_nonce();
        match chacha_encrypt(key, &nonce, plaintext, aad) {
            Ok(cipher) => Ok(EncryptedField { nonce: vstd::slice::slice_to_vec(nonce.as_slice()), cipher }),
            Err(_) => Err(AppError::Crypto),
        }
    }

    fn decrypt(&self, key: &[u8; 32], field: &EncryptedField, aad: &[u8]) -> (r: Result<Vec<u8>, AppError>) {
        if field.nonce.len() != 12 {
            return Err(AppError::Crypto);
        }
        match chacha_decrypt(key, field.nonce.as_slice(), field.cipher.as_slice(), aad) {
            Ok(p) => Ok(p),
            Err(_) => Err(AppError::Crypto),
        }
    }
}

} // verus!
