//! Key derivation and authenticated encryption for data that leaves the
//! device: PBKDF2 with HMAC-SHA-256, AES-256-GCM, and base64 for transport.

use vstd::prelude::*;
use vstd::slice::slice_subrange;
use vstd::string::*;
use vstd::utf8::{decode_utf8, valid_utf8};

verus! {

/// A key, in base64.
#[derive(Debug)]
pub struct DerivedKey {
    pub key: String,
}

/// A nonce followed by ciphertext and tag, in base64.
#[derive(Debug)]
pub struct EncryptedData {
    pub encrypted: String,
}

/// What was encrypted.
#[derive(Debug)]
pub struct DecryptedData {
    pub decrypted: String,
}

/// Why a cipher call failed.
#[derive(Debug)]
pub enum CipherFailure {
    /// The key was not taken.
    Key(String),
    /// Sealing or opening failed.
    Cipher(String),
}

pub enum CipherFailureView {
    Key(Seq<char>),
    Cipher(Seq<char>),
}

impl View for CipherFailure {
    type V = CipherFailureView;

    open spec fn view(&self) -> CipherFailureView {
        match self {
            CipherFailure::Key(m) => CipherFailureView::Key(m@),
            CipherFailure::Cipher(m) => CipherFailureView::Cipher(m@),
        }
    }
}

/// The length of an AES-256 key, in bytes.
pub const KEY_LENGTH: usize = 32;

/// The length of a GCM nonce, in bytes.
pub const NONCE_LENGTH: usize = 12;

/// The standard base64 text of some bytes, with padding.
pub uninterp spec fn base64_text(bytes: Seq<u8>) -> Seq<char>;

/// The bytes that a standard base64 text stands for, or the decoder's
/// complaint.
pub uninterp spec fn base64_bytes(text: Seq<char>) -> Result<Seq<u8>, Seq<char>>;

/// The 32 bytes that PBKDF2 with HMAC-SHA-256 derives.
pub uninterp spec fn pbkdf2_key(password: Seq<u8>, salt: Seq<u8>, rounds: u32) -> Seq<u8>;

/// Ciphertext and tag of AES-256-GCM without associated data, or why there
/// are none.
pub uninterp spec fn aes_gcm_sealed(key: Seq<u8>, nonce: Seq<u8>, plaintext: Seq<u8>) -> Result<
    Seq<u8>,
    CipherFailureView,
>;

/// The plaintext behind ciphertext and tag of AES-256-GCM without associated
/// data, or why it is not given out.
pub uninterp spec fn aes_gcm_opened(key: Seq<u8>, nonce: Seq<u8>, sealed: Seq<u8>) -> Result<
    Seq<u8>,
    CipherFailureView,
>;

/// What `String::from_utf8` says of bytes that are not UTF-8.
pub uninterp spec fn utf8_complaint(bytes: Seq<u8>) -> Seq<char>;

/// Calls `encode` of base64's `STANDARD` engine.
#[verifier::external_body]
pub(crate) fn base64_encode(bytes: &[u8]) -> (r: String)
    ensures
        r@ == base64_text(bytes@),
{
    base64::Engine::encode(&base64::engine::general_purpose::STANDARD, bytes)
}

/// Calls `decode` of base64's `STANDARD` engine; a text that it refuses
/// gives the refusal as the decoder words it.
#[verifier::external_body]
pub(crate) fn base64_decode(text: &str) -> (r: Result<Vec<u8>, String>)
    ensures
        match r {
            Ok(bytes) => base64_bytes(text@) == Ok::<Seq<u8>, Seq<char>>(bytes@),
            Err(m) => base64_bytes(text@) == Err::<Seq<u8>, Seq<char>>(m@),
        },
{
    match base64::Engine::decode(&base64::engine::general_purpose::STANDARD, text) {
        Ok(bytes) => Ok(bytes),
        Err(e) => Err(e.to_string()),
    }
}

/// Calls `pbkdf2::pbkdf2_hmac` with SHA-256 on a buffer of 32 bytes.
#[verifier::external_body]
pub(crate) fn pbkdf2_sha256(password: &[u8], salt: &[u8], rounds: u32) -> (r: Vec<u8>)
    ensures
        r@ == pbkdf2_key(password@, salt@, rounds),
        r@.len() == 32,
{
    let mut key = [0u8; 32];
    pbkdf2::pbkdf2_hmac::<sha2::Sha256>(password, salt, rounds, &mut key);
    key.to_vec()
}

/// Fills a buffer of `count` bytes with `fill_bytes` of rand's thread-local
/// generator. Only the length of what comes back is known.
#[verifier::external_body]
pub(crate) fn random_bytes(count: usize) -> (r: Vec<u8>)
    ensures
        r@.len() == count,
{
    let mut bytes = vec![0u8; count];
    rand::RngCore::fill_bytes(&mut rand::thread_rng(), &mut bytes);
    bytes
}

/// Makes an `Aes256Gcm` of the key with `new_from_slice` and calls `encrypt`
/// on it. Key and nonce must have their lengths, since the nonce is taken
/// with `Nonce::from_slice`.
#[verifier::external_body]
pub(crate) fn aes_gcm_seal(key: &[u8], nonce: &[u8], plaintext: &[u8]) -> (r: Result<
    Vec<u8>,
    CipherFailure,
>)
    requires
        key@.len() == 32,
        nonce@.len() == 12,
    ensures
        match r {
            Ok(sealed) => aes_gcm_sealed(key@, nonce@, plaintext@) == Ok::<
                Seq<u8>,
                CipherFailureView,
            >(sealed@),
            Err(e) => aes_gcm_sealed(key@, nonce@, plaintext@) == Err::<
                Seq<u8>,
                CipherFailureView,
            >(e@),
        },
{
    let cipher = match <aes_gcm::Aes256Gcm as aes_gcm::KeyInit>::new_from_slice(key) {
        Ok(c) => c,
        Err(e) => return Err(CipherFailure::Key(e.to_string())),
    };
    match aes_gcm::aead::Aead::encrypt(&cipher, aes_gcm::Nonce::from_slice(nonce), plaintext) {
        Ok(sealed) => Ok(sealed),
        Err(e) => Err(CipherFailure::Cipher(e.to_string())),
    }
}

/// Makes an `Aes256Gcm` of the key with `new_from_slice` and calls `decrypt`
/// on it. Key and nonce must have their lengths, since the nonce is taken
/// with `Nonce::from_slice`.
#[verifier::external_body]
pub(crate) fn aes_gcm_open(key: &[u8], nonce: &[u8], sealed: &[u8]) -> (r: Result<
    Vec<u8>,
    CipherFailure,
>)
    requires
        key@.len() == 32,
        nonce@.len() == 12,
    ensures
        match r {
            Ok(plaintext) => aes_gcm_opened(key@, nonce@, sealed@) == Ok::<
                Seq<u8>,
                CipherFailureView,
            >(plaintext@),
            Err(e) => aes_gcm_opened(key@, nonce@, sealed@) == Err::<Seq<u8>, CipherFailureView>(
                e@,
            ),
        },
{
    let cipher = match <aes_gcm::Aes256Gcm as aes_gcm::KeyInit>::new_from_slice(key) {
        Ok(c) => c,
        Err(e) => return Err(CipherFailure::Key(e.to_string())),
    };
    match aes_gcm::aead::Aead::decrypt(&cipher, aes_gcm::Nonce::from_slice(nonce), sealed) {
        Ok(plaintext) => Ok(plaintext),
        Err(e) => Err(CipherFailure::Cipher(e.to_string())),
    }
}

/// Calls `String::from_utf8`: bytes that are UTF-8 give their text, others
/// the complaint of the standard library.
#[verifier::external_body]
pub(crate) fn utf8_decode(bytes: Vec<u8>) -> (r: Result<String, String>)
    ensures
        match r {
            Ok(text) => valid_utf8(bytes@) && text@ == decode_utf8(bytes@),
            Err(m) => !valid_utf8(bytes@) && m@ == utf8_complaint(bytes@),
        },
{
    match String::from_utf8(bytes) {
        Ok(text) => Ok(text),
        Err(e) => Err(e.to_string()),
    }
}

/// The salt that `generate_salt` makes of random bytes.
pub open spec fn salt_of(bytes: Seq<u8>) -> Seq<char> {
    base64_text(bytes)
}

/// A fresh random salt of `length` bytes, in base64.
pub fn generate_salt(length: usize) -> (r: Result<String, String>)
    ensures
        r matches Ok(salt) && exists|bytes: Seq<u8>|
            bytes.len() == length && salt@ == #[trigger] salt_of(bytes),
{
    let bytes = random_bytes(length);
    let salt = base64_encode(bytes.as_slice());
    proof {
        assert(salt@ == salt_of(bytes@));
    }
    Ok(salt)
}

/// What deriving a key from a secret gives: the base64 of the 32 bytes that
/// PBKDF2 makes of the secret's UTF-8 bytes and the decoded salt, or the
/// complaint about a salt that is not base64.
pub open spec fn derived_key(secret: Seq<char>, salt: Seq<char>, iterations: u32) -> Result<
    Seq<char>,
    Seq<char>,
> {
    match base64_bytes(salt) {
        Ok(salt_bytes) => Ok(
            base64_text(pbkdf2_key(vstd::utf8::encode_utf8(secret), salt_bytes, iterations)),
        ),
        Err(m) => Err("Invalid salt: "@ + m),
    }
}

/// Derives a key from a PIN and a base64 salt.
pub fn derive_key_from_pin(pin: String, salt: String, iterations: u32) -> (r: Result<
    DerivedKey,
    String,
>)
    ensures
        match r {
            Ok(k) => derived_key(pin@, salt@, iterations) == Ok::<Seq<char>, Seq<char>>(k.key@),
            Err(m) => derived_key(pin@, salt@, iterations) == Err::<Seq<char>, Seq<char>>(m@),
        },
{
    let salt_bytes = match base64_decode(salt.as_str()) {
        Ok(b) => b,
        Err(m) => {
            return Err(String::from_str("Invalid salt: ").concat(m.as_str()));
        },
    };
    let key = pbkdf2_sha256(pin.as_str().as_bytes(), salt_bytes.as_slice(), iterations);
    Ok(DerivedKey { key: base64_encode(key.as_slice()) })
}

/// Derives a key from a master password and a base64 salt, as from a PIN.
pub fn derive_key_from_master_password(master_password: String, salt: String, iterations: u32)
    -> (r: Result<DerivedKey, String>)
    ensures
        match r {
            Ok(k) => derived_key(master_password@, salt@, iterations) == Ok::<
                Seq<char>,
                Seq<char>,
            >(k.key@),
            Err(m) => derived_key(master_password@, salt@, iterations) == Err::<
                Seq<char>,
                Seq<char>,
            >(m@),
        },
{
    derive_key_from_pin(master_password, salt, iterations)
}

/// A fresh random key of 32 bytes, in base64.
pub fn generate_symmetric_key() -> (r: Result<DerivedKey, String>)
    ensures
        r matches Ok(k) && exists|bytes: Seq<u8>|
            bytes.len() == 32 && k.key@ == #[trigger] base64_text(bytes),
{
    let bytes = random_bytes(KEY_LENGTH);
    let key = base64_encode(bytes.as_slice());
    proof {
        assert(key@ == base64_text(bytes@));
    }
    Ok(DerivedKey { key })
}

/// The words for a cipher that failed while sealing.
pub open spec fn seal_complaint(e: CipherFailureView) -> Seq<char> {
    match e {
        CipherFailureView::Key(m) => "Failed to create cipher: "@ + m,
        CipherFailureView::Cipher(m) => "Encryption failed: "@ + m,
    }
}

/// The words for a cipher that failed while opening.
pub open spec fn open_complaint(e: CipherFailureView) -> Seq<char> {
    match e {
        CipherFailureView::Key(m) => "Failed to create cipher: "@ + m,
        CipherFailureView::Cipher(m) => "Decryption failed: "@ + m,
    }
}

/// What encrypting `data` under a base64 key with a given nonce gives: the
/// base64 of the nonce followed by ciphertext and tag.
pub open spec fn encrypted_with(key: Seq<char>, data: Seq<char>, nonce: Seq<u8>) -> Result<
    Seq<char>,
    Seq<char>,
> {
    match base64_bytes(key) {
        Err(m) => Err("Invalid key: "@ + m),
        Ok(key_bytes) => if key_bytes.len() != 32 {
            Err("Key must be 32 bytes"@)
        } else {
            match aes_gcm_sealed(key_bytes, nonce, vstd::utf8::encode_utf8(data)) {
                Ok(sealed) => Ok(base64_text(nonce + sealed)),
                Err(e) => Err(seal_complaint(e)),
            }
        },
    }
}

/// Encrypts `data` under a base64 key of 32 bytes with the given nonce of 12
/// bytes.
pub fn encrypt_data_with_nonce(key: &str, data: &str, nonce: &[u8]) -> (r: Result<
    EncryptedData,
    String,
>)
    requires
        nonce@.len() == 12,
    ensures
        match r {
            Ok(e) => encrypted_with(key@, data@, nonce@) == Ok::<Seq<char>, Seq<char>>(
                e.encrypted@,
            ),
            Err(m) => encrypted_with(key@, data@, nonce@) == Err::<Seq<char>, Seq<char>>(m@),
        },
{
    let key_bytes = match base64_decode(key) {
        Ok(b) => b,
        Err(m) => {
            return Err(String::from_str("Invalid key: ").concat(m.as_str()));
        },
    };
    if key_bytes.len() != KEY_LENGTH {
        return Err(String::from_str("Key must be 32 bytes"));
    }
    let sealed = match aes_gcm_seal(key_bytes.as_slice(), nonce, data.as_bytes()) {
        Ok(s) => s,
        Err(CipherFailure::Key(m)) => {
            return Err(String::from_str("Failed to create cipher: ").concat(m.as_str()));
        },
        Err(CipherFailure::Cipher(m)) => {
            return Err(String::from_str("Encryption failed: ").concat(m.as_str()));
        },
    };
    let mut combined: Vec<u8> = Vec::new();
    combined.extend_from_slice(nonce);
    combined.extend_from_slice(sealed.as_slice());
    proof {
        assert(combined@ =~= nonce@ + sealed@);
    }
    Ok(EncryptedData { encrypted: base64_encode(combined.as_slice()) })
}

/// Encrypts `data` under a base64 key of 32 bytes, with a fresh random nonce.
pub fn encrypt_data(key: String, data: String) -> (r: Result<EncryptedData, String>)
    ensures
        exists|nonce: Seq<u8>|
            nonce.len() == 12 && (match r {
                Ok(e) => #[trigger] encrypted_with(key@, data@, nonce) == Ok::<
                    Seq<char>,
                    Seq<char>,
                >(e.encrypted@),
                Err(m) => encrypted_with(key@, data@, nonce) == Err::<Seq<char>, Seq<char>>(m@),
            }),
{
    let nonce = random_bytes(NONCE_LENGTH);
    let r = encrypt_data_with_nonce(key.as_str(), data.as_str(), nonce.as_slice());
    proof {
        let witness = nonce@;
        assert(witness.len() == 12 && (match r {
            Ok(e) => encrypted_with(key@, data@, witness) == Ok::<Seq<char>, Seq<char>>(
                e.encrypted@,
            ),
            Err(m) => encrypted_with(key@, data@, witness) == Err::<Seq<char>, Seq<char>>(m@),
        }));
    }
    r
}

/// What decrypting gives: the text behind the ciphertext that follows the
/// first 12 bytes, which are the nonce.
pub open spec fn decrypted(key: Seq<char>, encrypted: Seq<char>) -> Result<Seq<char>, Seq<char>> {
    match base64_bytes(key) {
        Err(m) => Err("Invalid key: "@ + m),
        Ok(key_bytes) => if key_bytes.len() != 32 {
            Err("Key must be 32 bytes"@)
        } else {
            match base64_bytes(encrypted) {
                Err(m) => Err("Invalid encrypted data: "@ + m),
                Ok(combined) => if combined.len() < 12 {
                    Err("Encrypted data too short"@)
                } else {
                    match aes_gcm_opened(
                        key_bytes,
                        combined.subrange(0, 12),
                        combined.subrange(12, combined.len() as int),
                    ) {
                        Err(e) => Err(open_complaint(e)),
                        Ok(plaintext) => if valid_utf8(plaintext) {
                            Ok(decode_utf8(plaintext))
                        } else {
                            Err("Invalid UTF-8: "@ + utf8_complaint(plaintext))
                        },
                    }
                },
            }
        },
    }
}

/// Decrypts what `encrypt_data` made, under the same key.
pub fn decrypt_data(key: String, encrypted_data: String) -> (r: Result<DecryptedData, String>)
    ensures
        match r {
            Ok(d) => decrypted(key@, encrypted_data@) == Ok::<Seq<char>, Seq<char>>(d.decrypted@),
            Err(m) => decrypted(key@, encrypted_data@) == Err::<Seq<char>, Seq<char>>(m@),
        },
{
    let key_bytes = match base64_decode(key.as_str()) {
        Ok(b) => b,
        Err(m) => {
            return Err(String::from_str("Invalid key: ").concat(m.as_str()));
        },
    };
    if key_bytes.len() != KEY_LENGTH {
        return Err(String::from_str("Key must be 32 bytes"));
    }
    let combined = match base64_decode(encrypted_data.as_str()) {
        Ok(b) => b,
        Err(m) => {
            return Err(String::from_str("Invalid encrypted data: ").concat(m.as_str()));
        },
    };
    if combined.len() < NONCE_LENGTH {
        return Err(String::from_str("Encrypted data too short"));
    }
    let nonce = slice_subrange(combined.as_slice(), 0, NONCE_LENGTH);
    let sealed = slice_subrange(combined.as_slice(), NONCE_LENGTH, combined.len());
    let plaintext = match aes_gcm_open(key_bytes.as_slice(), nonce, sealed) {
        Ok(p) => p,
        Err(CipherFailure::Key(m)) => {
            return Err(String::from_str("Failed to create cipher: ").concat(m.as_str()));
        },
        Err(CipherFailure::Cipher(m)) => {
            return Err(String::from_str("Decryption failed: ").concat(m.as_str()));
        },
    };
    match utf8_decode(plaintext) {
        Ok(text) => Ok(DecryptedData { decrypted: text }),
        Err(m) => Err(String::from_str("Invalid UTF-8: ").concat(m.as_str())),
    }
}

} // verus!
