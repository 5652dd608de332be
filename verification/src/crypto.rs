//! Application-level encryption for the evidence ledger.
//!
//! The store keeps one JSON payload per run. When a database key is configured
//! the payload is sealed with AES-256-GCM before it is stored, so a stolen
//! database file does not disclose model output, business context, or the
//! identity of whoever scored a result. Records written without a key stay in plain text and carry no
//! `enc:v1:` marker, so a development database keeps working after a key is
//! added for a later run.

use vstd::prelude::*;
use vstd::utf8::{decode_utf8, encode_utf8, encode_utf8_decode_utf8, encode_utf8_valid_utf8, valid_utf8};

use crate::text::{has_prefix, starts_with};

use aes_gcm::aead::{Aead, KeyInit};
use base64::Engine;

verus! {

#[verifier::external_type_specification]
#[verifier::external_body]
pub struct ExDecodeError(base64::DecodeError);

#[verifier::external_type_specification]
#[verifier::external_body]
pub struct ExAeadError(aes_gcm::Error);

#[verifier::external_type_specification]
#[verifier::external_body]
pub struct ExRandomError(getrandom::Error);

/// The marker that opens every sealed payload.
pub const MARKER: &'static str = "enc:v1:";

/// The number of bytes of an AES-GCM nonce.
pub const NONCE_LEN: usize = 12;

/// The number of bytes of an AES-256 key.
pub const KEY_LEN: usize = 32;

/// The number of bytes of the authentication tag that AES-GCM appends.
pub const TAG_LEN: usize = 16;

/// The largest plaintext, in bytes, that AES-GCM encrypts (`aes_gcm::P_MAX`).
pub const MAX_PLAINTEXT_BYTES: u64 = 0x10_0000_0000;

/// The name for what standard base64 encoding with padding
/// (`base64::engine::general_purpose::STANDARD`) makes of some bytes.
pub uninterp spec fn base64_text(bytes: Seq<u8>) -> Seq<char>;

/// The name for what standard base64 decoding makes of a text: the bytes, or
/// `None` when the text is not canonical padded base64.
pub uninterp spec fn base64_bytes(text: Seq<char>) -> Option<Seq<u8>>;

/// The name for the AES-256-GCM ciphertext (with its tag appended) of a
/// plaintext under a key and nonce, with no associated data.
pub uninterp spec fn aes256gcm_seal(key: Seq<u8>, nonce: Seq<u8>, plaintext: Seq<u8>) -> Seq<u8>;

/// The name for what AES-256-GCM decryption makes of a ciphertext under a key
/// and nonce: the plaintext, or `None` when the tag does not authenticate.
pub uninterp spec fn aes256gcm_open(key: Seq<u8>, nonce: Seq<u8>, ciphertext: Seq<u8>) -> Option<Seq<u8>>;

/// `STANDARD.encode` of the base64 crate. Its result is named, and
/// `STANDARD.decode` gives the bytes back from it.
#[verifier::external_body]
fn encode_base64(bytes: &[u8]) -> (text: String)
    ensures
        text@ == base64_text(bytes@),
        base64_bytes(text@) == Some(bytes@),
{
    base64::engine::general_purpose::STANDARD.encode(bytes)
}

/// `STANDARD.decode` of the base64 crate. It succeeds exactly when the named
/// decoding yields bytes, and then returns them.
#[verifier::external_body]
fn decode_base64(text: &str) -> (r: Result<Vec<u8>, base64::DecodeError>)
    ensures
        base64_bytes(text@) is Some <==> r is Ok,
        r matches Ok(b) ==> base64_bytes(text@) == Some(b@),
{
    base64::engine::general_purpose::STANDARD.decode(text)
}

/// `Aead::encrypt` of `Aes256Gcm` under a 32-byte key and a 12-byte nonce.
/// It fails only for a plaintext above `aes_gcm::P_MAX` bytes; otherwise the
/// ciphertext is the named one, is the plaintext's length plus the tag, and
/// decrypts under the same key and nonce to the plaintext.
#[verifier::external_body]
fn aes_encrypt(key: &[u8], nonce: &[u8], plaintext: &[u8]) -> (r: Result<Vec<u8>, aes_gcm::Error>)
    requires
        key@.len() == KEY_LEN,
        nonce@.len() == NONCE_LEN,
    ensures
        plaintext@.len() <= MAX_PLAINTEXT_BYTES <==> r is Ok,
        r matches Ok(c) ==> c@ == aes256gcm_seal(key@, nonce@, plaintext@),
        r matches Ok(c) ==> c@.len() == plaintext@.len() + TAG_LEN,
        r matches Ok(c) ==> aes256gcm_open(key@, nonce@, c@) == Some(plaintext@),
{
    let cipher = aes_gcm::Aes256Gcm::new(aes_gcm::Key::<aes_gcm::Aes256Gcm>::from_slice(key));
    cipher.encrypt(aes_gcm::Nonce::from_slice(nonce), plaintext)
}

/// `Aead::decrypt` of `Aes256Gcm` under a 32-byte key and a 12-byte nonce. It
/// succeeds exactly when the named decryption yields a plaintext, and then
/// returns it.
#[verifier::external_body]
fn aes_decrypt(key: &[u8], nonce: &[u8], ciphertext: &[u8]) -> (r: Result<Vec<u8>, aes_gcm::Error>)
    requires
        key@.len() == KEY_LEN,
        nonce@.len() == NONCE_LEN,
    ensures
        aes256gcm_open(key@, nonce@, ciphertext@) is Some <==> r is Ok,
        r matches Ok(p) ==> aes256gcm_open(key@, nonce@, ciphertext@) == Some(p@),
{
    let cipher = aes_gcm::Aes256Gcm::new(aes_gcm::Key::<aes_gcm::Aes256Gcm>::from_slice(key));
    cipher.decrypt(aes_gcm::Nonce::from_slice(nonce), ciphertext)
}

/// `getrandom::getrandom`: fills the buffer from the operating system's random
/// source. Nothing is promised of the bytes, only that the length stays.
#[verifier::external_body]
fn fill_random(dest: &mut Vec<u8>) -> (r: Result<(), getrandom::Error>)
    ensures
        final(dest)@.len() == old(dest)@.len(),
{
    getrandom::getrandom(dest.as_mut_slice())
}

/// `String::from_utf8`: the text that the bytes encode, when they are valid
/// UTF-8.
#[verifier::external_body]
fn utf8_to_string(bytes: Vec<u8>) -> (r: Option<String>)
    ensures
        r is Some <==> valid_utf8(bytes@),
        r matches Some(s) ==> s@ == decode_utf8(bytes@),
{
    String::from_utf8(bytes).ok()
}

/// A 32-byte AES-256 database key.
pub struct DatabaseKey {
    bytes: Vec<u8>,
}

impl DatabaseKey {
    /// The bytes of the key.
    pub closed spec fn key_bytes(&self) -> Seq<u8> {
        self.bytes@
    }

    #[verifier::type_invariant]
    closed spec fn inv(&self) -> bool {
        self.bytes@.len() == KEY_LEN
    }
}

/// A payload cipher. `Disabled` is a transparent pass-through used for the
/// loopback development mode.
pub enum Cipher {
    Disabled,
    Enabled(DatabaseKey),
}

/// Why a key or a payload was refused.
#[derive(Debug, PartialEq, Eq)]
pub enum CipherError {
    /// The database key must be base64.
    KeyNotBase64,
    /// The database key must decode to 32 bytes.
    KeyLength,
    /// The nonce generator failed.
    RandomSource,
    /// The payload could not be encrypted: it is too large.
    Encrypt,
    /// An encrypted record was found but no database key is configured.
    NoKey,
    /// The stored ciphertext is not valid base64.
    CiphertextNotBase64,
    /// The stored ciphertext is too short.
    CiphertextTooShort,
    /// The payload could not be decrypted with this key.
    Decrypt,
    /// The decrypted payload is not valid UTF-8.
    NotUtf8,
}

/// The text that explains a refused key or payload.
pub open spec fn cipher_error_text(e: CipherError) -> Seq<char> {
    match e {
        CipherError::KeyNotBase64 => "The database key must be base64"@,
        CipherError::KeyLength => "The database key must decode to 32 bytes for AES-256-GCM"@,
        CipherError::RandomSource => "The nonce generator failed"@,
        CipherError::Encrypt => "The payload could not be encrypted"@,
        CipherError::NoKey => "An encrypted record was found but no database key is configured"@,
        CipherError::CiphertextNotBase64 => "The stored ciphertext is not valid base64"@,
        CipherError::CiphertextTooShort => "The stored ciphertext is too short"@,
        CipherError::Decrypt => "The payload could not be decrypted with this key"@,
        CipherError::NotUtf8 => "The decrypted payload is not valid UTF-8"@,
    }
}

impl CipherError {
    /// The explanation of the refusal.
    pub fn message(&self) -> (s: &'static str)
        ensures
            s@ == cipher_error_text(*self),
    {
        match self {
            CipherError::KeyNotBase64 => "The database key must be base64",
            CipherError::KeyLength => "The database key must decode to 32 bytes for AES-256-GCM",
            CipherError::RandomSource => "The nonce generator failed",
            CipherError::Encrypt => "The payload could not be encrypted",
            CipherError::NoKey => "An encrypted record was found but no database key is configured",
            CipherError::CiphertextNotBase64 => "The stored ciphertext is not valid base64",
            CipherError::CiphertextTooShort => "The stored ciphertext is too short",
            CipherError::Decrypt => "The payload could not be decrypted with this key",
            CipherError::NotUtf8 => "The decrypted payload is not valid UTF-8",
        }
    }
}

/// The stored form of `plaintext` sealed under `key` with `nonce`: the marker,
/// then the base64 text of the nonce followed by the ciphertext.
pub open spec fn sealed_text(key: Seq<u8>, nonce: Seq<u8>, plaintext: Seq<char>) -> Seq<char> {
    MARKER@ + base64_text(nonce + aes256gcm_seal(key, nonce, encode_utf8(plaintext)))
}

/// `stored` is what sealing `plaintext` under `key` gives: the sealed text
/// for some 12-byte nonce, where the ciphertext is the plaintext's length
/// plus the tag, the base64 text decodes back to the nonce and ciphertext,
/// and the ciphertext decrypts back to the plaintext.
pub open spec fn is_sealing_of(key: Seq<u8>, stored: Seq<char>, plaintext: Seq<char>) -> bool {
    exists|nonce: Seq<u8>|
        {
            let c = aes256gcm_seal(key, nonce, encode_utf8(plaintext));
            &&& nonce.len() == NONCE_LEN
            &&& c.len() == encode_utf8(plaintext).len() + TAG_LEN
            &&& base64_bytes(base64_text(nonce + c)) == Some(nonce + c)
            &&& aes256gcm_open(key, nonce, c) == Some(encode_utf8(plaintext))
            &&& stored == #[trigger] sealed_text(key, nonce, plaintext)
        }
}

/// What `open` makes of a stored payload under a key (`None` for a disabled
/// cipher), all outside results taken by their names.
pub open spec fn opened(key: Option<Seq<u8>>, stored: Seq<char>) -> Result<Seq<char>, CipherError> {
    if !has_prefix(stored, MARKER@) {
        Ok(stored)
    } else {
        match key {
            None => Err(CipherError::NoKey),
            Some(k) => match base64_bytes(stored.subrange(MARKER@.len() as int, stored.len() as int)) {
                None => Err(CipherError::CiphertextNotBase64),
                Some(blob) => if blob.len() <= NONCE_LEN {
                    Err(CipherError::CiphertextTooShort)
                } else {
                    match aes256gcm_open(
                        k,
                        blob.subrange(0, NONCE_LEN as int),
                        blob.subrange(NONCE_LEN as int, blob.len() as int),
                    ) {
                        None => Err(CipherError::Decrypt),
                        Some(bytes) => if valid_utf8(bytes) {
                            Ok(decode_utf8(bytes))
                        } else {
                            Err(CipherError::NotUtf8)
                        },
                    }
                },
            },
        }
    }
}

impl Cipher {
    /// The key of an enabled cipher.
    pub open spec fn key(&self) -> Option<Seq<u8>> {
        match self {
            Cipher::Disabled => None,
            Cipher::Enabled(k) => Some(k.key_bytes()),
        }
    }

    /// Build a cipher from a base64 key, which must decode to exactly 32
    /// bytes.
    pub fn from_base64_key(encoded: &str) -> (r: Result<Cipher, CipherError>)
        ensures
            base64_bytes(encoded@) is None ==> r == Err::<Cipher, CipherError>(CipherError::KeyNotBase64),
            base64_bytes(encoded@) matches Some(b) ==> if b.len() == KEY_LEN {
                r matches Ok(c) && c.key() == Some(b)
            } else {
                r == Err::<Cipher, CipherError>(CipherError::KeyLength)
            },
    {
        let bytes = match decode_base64(encoded) {
            Ok(b) => b,
            Err(_) => return Err(CipherError::KeyNotBase64),
        };
        if bytes.len() != KEY_LEN {
            return Err(CipherError::KeyLength);
        }
        Ok(Cipher::Enabled(DatabaseKey { bytes }))
    }

    pub fn enabled(&self) -> (b: bool)
        ensures
            b == (self.key() is Some),
    {
        match self {
            Cipher::Disabled => false,
            Cipher::Enabled(_) => true,
        }
    }

    /// Seal a payload under a given 12-byte nonce. When disabled the plain
    /// text is returned unchanged. When enabled the result is the marker,
    /// then the base64 text of the nonce followed by the AES-256-GCM
    /// ciphertext of the payload; it fails only when the payload is above the
    /// AES-GCM limit.
    pub fn seal_with_nonce(&self, nonce: &[u8], plaintext: &str) -> (r: Result<String, CipherError>)
        requires
            nonce@.len() == NONCE_LEN,
        ensures
            self.key() is None ==> (r matches Ok(s) && s@ == plaintext@),
            self.key() matches Some(k) ==> ((r matches Ok(s) && s@ == sealed_text(k, nonce@, plaintext@))
                <==> encode_utf8(plaintext@).len() <= MAX_PLAINTEXT_BYTES),
            self.key() is Some ==> (r is Ok <==> encode_utf8(plaintext@).len() <= MAX_PLAINTEXT_BYTES),
            r is Err ==> r == Err::<String, CipherError>(CipherError::Encrypt),
            self.key() matches Some(k) ==> (r matches Ok(s) ==> is_sealing_of(k, s@, plaintext@)),
            self.key() matches Some(k) ==> (r matches Ok(s) ==> opened(self.key(), s@) == Ok::<
                Seq<char>,
                CipherError,
            >(plaintext@)),
    {
        match self {
            Cipher::Disabled => Ok(plaintext.to_owned()),
            Cipher::Enabled(key) => {
                proof {
                    use_type_invariant(key);
                }
                let bytes = plaintext.as_bytes();
                let mut ciphertext = match aes_encrypt(key.bytes.as_slice(), nonce, bytes) {
                    Ok(c) => c,
                    Err(_) => return Err(CipherError::Encrypt),
                };
                let ghost n = nonce@;
                let ghost c = ciphertext@;
                let mut blob: Vec<u8> = Vec::new();
                let mut i: usize = 0;
                while i < nonce.len()
                    invariant
                        i <= nonce@.len(),
                        blob@ == nonce@.take(i as int),
                    decreases nonce@.len() - i,
                {
                    blob.push(nonce[i]);
                    assert(nonce@.take(i + 1) =~= nonce@.take(i as int).push(nonce@[i as int]));
                    i = i + 1;
                }
                assert(nonce@.take(nonce@.len() as int) =~= nonce@);
                blob.append(&mut ciphertext);
                assert(blob@ == n + c);
                let encoded = encode_base64(blob.as_slice());
                let mut sealed = MARKER.to_owned();
                sealed.append(encoded.as_str());
                assert(sealed@ == sealed_text(key.key_bytes(), n, plaintext@));
                assert(is_sealing_of(key.key_bytes(), sealed@, plaintext@));
                proof {
                    law_open_undoes_seal(key.key_bytes(), sealed@, plaintext@);
                }
                Ok(sealed)
            },
        }
    }

    /// Seal a payload under a fresh nonce drawn from the operating system's
    /// random source (`seal_with_nonce` does the rest). When disabled the
    /// plain text is returned unchanged. It fails when the random source
    /// fails or the payload is above the AES-GCM limit.
    pub fn seal(&self, plaintext: &str) -> (r: Result<String, CipherError>)
        ensures
            self.key() is None ==> (r matches Ok(s) && s@ == plaintext@),
            self.key() matches Some(k) ==> {
                &&& r matches Ok(s) ==> is_sealing_of(k, s@, plaintext@)
                &&& r matches Ok(s) ==> opened(self.key(), s@) == Ok::<Seq<char>, CipherError>(plaintext@)
                &&& r matches Err(e) ==> e == CipherError::RandomSource || (e == CipherError::Encrypt
                    && encode_utf8(plaintext@).len() > MAX_PLAINTEXT_BYTES)
                &&& encode_utf8(plaintext@).len() > MAX_PLAINTEXT_BYTES ==> r is Err
            },
    {
        match self {
            Cipher::Disabled => Ok(plaintext.to_owned()),
            Cipher::Enabled(_) => {
                let mut nonce: Vec<u8> = vec![0u8; NONCE_LEN];
                if fill_random(&mut nonce).is_err() {
                    return Err(CipherError::RandomSource);
                }
                self.seal_with_nonce(nonce.as_slice(), plaintext)
            },
        }
    }

    /// Open a stored payload. A record without the marker is treated as
    /// legacy plain text. A marked record requires a configured key; a record
    /// that `seal` made under this key opens to the sealed payload.
    pub fn open(&self, stored: &str) -> (r: Result<String, CipherError>)
        ensures
            match opened(self.key(), stored@) {
                Ok(t) => (r matches Ok(s) && s@ == t),
                Err(e) => r == Err::<String, CipherError>(e),
            },
            forall|p: Seq<char>|
                self.key() is Some && #[trigger] is_sealing_of(self.key()->0, stored@, p) ==> (r matches Ok(s)
                    && s@ == p),
    {
        proof {
            reveal_strlit("enc:v1:");
            assert forall|p: Seq<char>| self.key() is Some && #[trigger] is_sealing_of(
                self.key()->0,
                stored@,
                p,
            ) implies opened(self.key(), stored@) == Ok::<Seq<char>, CipherError>(p) by {
                law_open_undoes_seal(self.key()->0, stored@, p);
            }
        }
        if !starts_with(stored, MARKER) {
            return Ok(stored.to_owned());
        }
        let key = match self {
            Cipher::Enabled(k) => k,
            Cipher::Disabled => return Err(CipherError::NoKey),
        };
        proof {
            use_type_invariant(key);
        }
        let n = stored.unicode_len();
        let encoded = stored.substring_char(7, n);
        assert(MARKER@.len() == 7);
        let mut blob = match decode_base64(encoded) {
            Ok(b) => b,
            Err(_) => return Err(CipherError::CiphertextNotBase64),
        };
        let ghost whole = blob@;
        if blob.len() <= NONCE_LEN {
            return Err(CipherError::CiphertextTooShort);
        }
        let ciphertext = blob.split_off(NONCE_LEN);
        assert(blob@ == whole.subrange(0, NONCE_LEN as int));
        assert(ciphertext@ == whole.subrange(NONCE_LEN as int, whole.len() as int));
        let plain = match aes_decrypt(key.bytes.as_slice(), blob.as_slice(), ciphertext.as_slice()) {
            Ok(p) => p,
            Err(_) => return Err(CipherError::Decrypt),
        };
        match utf8_to_string(plain) {
            Some(s) => Ok(s),
            None => Err(CipherError::NotUtf8),
        }
    }
}

/// Opening a payload under the key that sealed it gives the payload back.
pub proof fn law_open_undoes_seal(key: Seq<u8>, stored: Seq<char>, plaintext: Seq<char>)
    requires
        is_sealing_of(key, stored, plaintext),
    ensures
        opened(Some(key), stored) == Ok::<Seq<char>, CipherError>(plaintext),
{
    reveal_strlit("enc:v1:");
    let nonce = choose|nonce: Seq<u8>|
        {
            let c = aes256gcm_seal(key, nonce, encode_utf8(plaintext));
            &&& nonce.len() == NONCE_LEN
            &&& c.len() == encode_utf8(plaintext).len() + TAG_LEN
            &&& base64_bytes(base64_text(nonce + c)) == Some(nonce + c)
            &&& aes256gcm_open(key, nonce, c) == Some(encode_utf8(plaintext))
            &&& stored == #[trigger] sealed_text(key, nonce, plaintext)
        };
    let c = aes256gcm_seal(key, nonce, encode_utf8(plaintext));
    let body = base64_text(nonce + c);
    assert(stored == MARKER@ + body);
    assert(stored.subrange(0, MARKER@.len() as int) =~= MARKER@);
    assert(stored.subrange(MARKER@.len() as int, stored.len() as int) =~= body);
    let blob = nonce + c;
    assert(blob.subrange(0, NONCE_LEN as int) =~= nonce);
    assert(blob.subrange(NONCE_LEN as int, blob.len() as int) =~= c);
    encode_utf8_valid_utf8(plaintext);
    encode_utf8_decode_utf8(plaintext);
}

/// A record without the marker is legacy plain text and opens as itself,
/// with or without a key; so a disabled cipher gives back what it sealed.
pub proof fn law_unmarked_text_opens_as_itself(key: Option<Seq<u8>>, stored: Seq<char>)
    requires
        !has_prefix(stored, MARKER@),
    ensures
        opened(key, stored) == Ok::<Seq<char>, CipherError>(stored),
{
}

/// A marked record cannot be opened without a key.
pub proof fn law_marked_text_needs_a_key(stored: Seq<char>)
    requires
        has_prefix(stored, MARKER@),
    ensures
        opened(None, stored) == Err::<Seq<char>, CipherError>(CipherError::NoKey),
{
}

} // verus!
