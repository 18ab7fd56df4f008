//! Credentials at rest: a secret is sealed with AES-256-GCM under a fresh key and
//! nonce, and key, nonce and sealed bytes are stored together as one base64 text.
//!
//! The key travels with the data, so the text only keeps the secret from being
//! readable at a glance. That is the on-disk format, and it is kept as it is.

use vstd::prelude::*;
use vstd::utf8::*;
use vstd::string::*;
use vstd::slice::*;
use base64::Engine;
use ring::rand::SecureRandom;
use crate::error::{AppError, CryptoError, FormatError};

verus! {

/// Bytes of an AES-256 key.
pub const KEY_LEN: usize = 32;

/// Bytes of an AES-GCM nonce.
pub const NONCE_LEN: usize = 12;

/// Bytes of the authentication tag that ends the sealed region.
pub const TAG_LEN: usize = 16;

/// Bytes that precede the sealed region of a stored credential.
pub const HEADER_LEN: usize = 44;

/// Longest byte string whose base64 text has a length that fits in `usize`.
pub const MAX_ENCODABLE_LEN: usize = usize::MAX / 4 * 3;

/// Longest secret, in bytes of UTF-8, that is sealed whatever the machine: one
/// gibibyte. It is within what the cipher takes under one nonce, and the package
/// made of it is within `MAX_ENCODABLE_LEN`.
pub const MAX_SECRET_LEN: usize = 0x4000_0000;

/// What AES-256-GCM with empty associated data makes of `plaintext` under `key`
/// and `nonce`: the ciphertext followed by the authentication tag.
pub uninterp spec fn aes_256_gcm_sealed(key: Seq<u8>, nonce: Seq<u8>, plaintext: Seq<u8>) -> Seq<u8>;

/// The base64 text of `bytes` in the standard alphabet, without padding.
pub uninterp spec fn base64_no_pad(bytes: Seq<u8>) -> Seq<char>;

/// `ring::error::Unspecified`, the one error of the cipher and of the random
/// generator. It is only told apart from success.
#[verifier::external_type_specification]
#[verifier::external_body]
pub struct ExUnspecified(ring::error::Unspecified);

/// `base64::DecodeError`. It is only told apart from success.
#[verifier::external_type_specification]
#[verifier::external_body]
pub struct ExDecodeError(base64::DecodeError);

/// `std::string::FromUtf8Error`. It is only told apart from success.
#[verifier::external_type_specification]
#[verifier::external_body]
pub struct ExFromUtf8Error(std::string::FromUtf8Error);

/// `ring::rand::SecureRandom::fill` on a `ring::rand::SystemRandom`, into a fresh
/// buffer of `len` bytes. Nothing is claimed of the bytes but their number.
#[verifier::external_body]
fn system_random(len: usize) -> (r: Result<Vec<u8>, ring::error::Unspecified>)
    ensures
        r matches Ok(bytes) ==> bytes@.len() == len,
{
    let mut buf = vec![0u8; len];
    match ring::rand::SystemRandom::new().fill(&mut buf) {
        Ok(()) => Ok(buf),
        Err(e) => Err(e),
    }
}

/// `ring::aead::LessSafeKey::seal_in_place_append_tag` with `AES_256_GCM` and empty
/// associated data, on a copy of `plaintext`. When the cipher accepts the input,
/// what comes back is the sealing that `aes_256_gcm_sealed` names: the input
/// enciphered in place, with the 16 bytes of the tag appended. With a key of 32
/// bytes and a nonce of 12 the cipher refuses only an input longer than its limit
/// for one nonce, 2^36 - 32 bytes or all that `usize` can count, and
/// `MAX_SECRET_LEN` is below both.
#[verifier::external_body]
fn aead_seal(key: &[u8], nonce: &[u8], plaintext: &[u8]) -> (r: Result<Vec<u8>, ring::error::Unspecified>)
    requires
        key@.len() == KEY_LEN,
        nonce@.len() == NONCE_LEN,
    ensures
        r matches Ok(sealed) ==> sealed@ == aes_256_gcm_sealed(key@, nonce@, plaintext@)
            && sealed@.len() == plaintext@.len() + TAG_LEN,
        plaintext@.len() <= MAX_SECRET_LEN ==> r is Ok,
{
    let key = ring::aead::LessSafeKey::new(ring::aead::UnboundKey::new(&ring::aead::AES_256_GCM, key)?);
    let nonce = ring::aead::Nonce::try_assume_unique_for_key(nonce)?;
    let mut in_out = plaintext.to_vec();
    key.seal_in_place_append_tag(nonce, ring::aead::Aad::empty(), &mut in_out)?;
    Ok(in_out)
}

/// `ring::aead::LessSafeKey::open_in_place` with `AES_256_GCM` and empty associated
/// data, on a copy of `sealed`. Opening gives a plaintext exactly when `sealed` is
/// the sealing of that plaintext under the same key and nonce; everything else is
/// refused. What is given is `sealed` without the 16 bytes of the tag, deciphered
/// in place.
#[verifier::external_body]
fn aead_open(key: &[u8], nonce: &[u8], sealed: &[u8]) -> (r: Result<Vec<u8>, ring::error::Unspecified>)
    requires
        key@.len() == KEY_LEN,
        nonce@.len() == NONCE_LEN,
    ensures
        forall|p: Seq<u8>|
            (#[trigger] aes_256_gcm_sealed(key@, nonce@, p) == sealed@) <==> (r matches Ok(opened)
                && opened@ == p),
        r matches Ok(opened) ==> sealed@.len() == opened@.len() + TAG_LEN,
{
    let key = ring::aead::LessSafeKey::new(ring::aead::UnboundKey::new(&ring::aead::AES_256_GCM, key)?);
    let nonce = ring::aead::Nonce::try_assume_unique_for_key(nonce)?;
    let mut in_out = sealed.to_vec();
    let opened = key.open_in_place(nonce, ring::aead::Aad::empty(), &mut in_out)?.to_vec();
    Ok(opened)
}

/// `base64::Engine::encode` on `base64::engine::general_purpose::STANDARD_NO_PAD`.
/// The engine panics when the length of the text would not fit in `usize`, so such
/// inputs are left out. The text is the encoding of these bytes and of no others:
/// decoding gives them back.
#[verifier::external_body]
fn base64_encode(bytes: &[u8]) -> (text: String)
    requires
        bytes@.len() <= MAX_ENCODABLE_LEN,
    ensures
        text@ == base64_no_pad(bytes@),
        forall|b: Seq<u8>| #[trigger] base64_no_pad(b) == text@ ==> b == bytes@,
{
    base64::engine::general_purpose::STANDARD_NO_PAD.encode(bytes)
}

/// `base64::Engine::decode` on `base64::engine::general_purpose::STANDARD_NO_PAD`.
/// The engine accepts a text exactly when it is the unpadded encoding of some
/// bytes, and then gives those bytes: padding, symbols outside the alphabet,
/// impossible lengths and stray trailing bits are all refused.
#[verifier::external_body]
fn base64_decode(text: &str) -> (r: Result<Vec<u8>, base64::DecodeError>)
    ensures
        forall|b: Seq<u8>|
            (#[trigger] base64_no_pad(b) == text@) <==> (r matches Ok(bytes) && bytes@ == b),
{
    base64::engine::general_purpose::STANDARD_NO_PAD.decode(text)
}

/// `String::from_utf8`: the bytes become a string exactly when they are UTF-8, and
/// the string is then what they decode to.
#[verifier::external_body]
fn string_from_utf8(bytes: Vec<u8>) -> (r: Result<String, std::string::FromUtf8Error>)
    ensures
        r is Ok <==> valid_utf8(bytes@),
        r matches Ok(s) ==> s@ == decode_utf8(bytes@),
{
    String::from_utf8(bytes)
}

/// A stored credential taken apart: the key and the nonce it was sealed with, and
/// the sealed bytes (ciphertext and tag).
#[derive(Debug, Clone, PartialEq, Eq)]
pub struct CredentialBlob {
    pub key: Vec<u8>,
    pub nonce: Vec<u8>,
    pub sealed: Vec<u8>,
}

/// The bytes of a stored credential: `key ‖ nonce ‖ sealed`.
pub open spec fn blob_bytes(key: Seq<u8>, nonce: Seq<u8>, sealed: Seq<u8>) -> Seq<u8> {
    key + nonce + sealed
}

/// The text under which `secret` is stored when it is sealed under `key` and `nonce`.
pub open spec fn blob_text(key: Seq<u8>, nonce: Seq<u8>, secret: Seq<char>) -> Seq<char> {
    base64_no_pad(blob_bytes(key, nonce, aes_256_gcm_sealed(key, nonce, encode_utf8(secret))))
}

/// Sealing `secret` under `key` and `nonce` gives as many bytes as the secret has
/// in UTF-8, and 16 more for the tag.
pub open spec fn seals_to_size(key: Seq<u8>, nonce: Seq<u8>, secret: Seq<char>) -> bool {
    aes_256_gcm_sealed(key, nonce, encode_utf8(secret)).len() == encode_utf8(secret).len()
        + TAG_LEN
}

/// `text` is a stored form of `secret`: for some key and nonce of the right sizes
/// it is the text that sealing `secret` under them gives.
pub open spec fn is_blob_of(text: Seq<char>, secret: Seq<char>) -> bool {
    exists|key: Seq<u8>, nonce: Seq<u8>|
        key.len() == KEY_LEN && nonce.len() == NONCE_LEN && text == #[trigger] blob_text(
            key,
            nonce,
            secret,
        ) && seals_to_size(key, nonce, secret)
}

/// `text` stores `key` and `nonce` and no others: whatever key, nonce and sealed
/// bytes it is the stored form of, the key and the nonce are these.
pub open spec fn stores_only(text: Seq<char>, key: Seq<u8>, nonce: Seq<u8>) -> bool {
    forall|k: Seq<u8>, n: Seq<u8>, s: Seq<u8>|
        k.len() == KEY_LEN && n.len() == NONCE_LEN && text == base64_no_pad(
            #[trigger] blob_bytes(k, n, s),
        ) ==> k == key && n == nonce
}

/// `text` is the base64 text of some byte string.
pub open spec fn is_base64(text: Seq<char>) -> bool {
    exists|b: Seq<u8>| #[trigger] base64_no_pad(b) == text
}

/// `text` is the base64 text of a byte string too short to hold a key and a nonce.
pub open spec fn is_short_blob(text: Seq<char>) -> bool {
    exists|b: Seq<u8>| #[trigger] base64_no_pad(b) == text && b.len() < HEADER_LEN
}

/// `text` is the base64 text of key, nonce and sealed bytes that authenticate, but
/// what they seal is not UTF-8.
pub open spec fn seals_non_utf8(text: Seq<char>) -> bool {
    exists|key: Seq<u8>, nonce: Seq<u8>, plaintext: Seq<u8>|
        key.len() == KEY_LEN && nonce.len() == NONCE_LEN && !valid_utf8(plaintext) && text
            == base64_no_pad(
            #[trigger] blob_bytes(key, nonce, aes_256_gcm_sealed(key, nonce, plaintext)),
        )
}

impl CredentialBlob {
    /// Key and nonce have the sizes the cipher asks for.
    pub open spec fn wf(&self) -> bool {
        self.key@.len() == KEY_LEN && self.nonce@.len() == NONCE_LEN
    }

    /// The bytes this credential is stored as.
    pub open spec fn bytes(&self) -> Seq<u8> {
        blob_bytes(self.key@, self.nonce@, self.sealed@)
    }

    /// Lays the credential out as `key ‖ nonce ‖ sealed`.
    pub fn to_bytes(&self) -> (out: Vec<u8>)
        ensures
            out@ == self.bytes(),
    {
        let mut out: Vec<u8> = Vec::new();
        out.extend_from_slice(self.key.as_slice());
        out.extend_from_slice(self.nonce.as_slice());
        out.extend_from_slice(self.sealed.as_slice());
        assert(out@ =~= self.bytes());
        out
    }

    /// Takes stored bytes apart. Fewer than 44 bytes cannot hold a key and a nonce
    /// and are refused; anything longer splits after byte 32 and after byte 44.
    pub fn from_bytes(bytes: &[u8]) -> (r: Result<CredentialBlob, AppError>)
        ensures
            r is Ok <==> bytes@.len() >= HEADER_LEN,
            r matches Err(e) ==> e == AppError::Format(FormatError::TooShort),
            r matches Ok(blob) ==> {
                &&& blob.wf()
                &&& blob.key@ == bytes@.subrange(0, KEY_LEN as int)
                &&& blob.nonce@ == bytes@.subrange(KEY_LEN as int, HEADER_LEN as int)
                &&& blob.sealed@ == bytes@.subrange(HEADER_LEN as int, bytes@.len() as int)
                &&& blob.bytes() == bytes@
            },
    {
        if bytes.len() < HEADER_LEN {
            return Err(AppError::Format(FormatError::TooShort));
        }
        let (key, rest) = bytes.split_at(KEY_LEN);
        let (nonce, sealed) = rest.split_at(NONCE_LEN);
        let blob = CredentialBlob {
            key: slice_to_vec(key),
            nonce: slice_to_vec(nonce),
            sealed: slice_to_vec(sealed),
        };
        assert(blob.nonce@ =~= bytes@.subrange(KEY_LEN as int, HEADER_LEN as int));
        assert(blob.sealed@ =~= bytes@.subrange(HEADER_LEN as int, bytes@.len() as int));
        assert(blob.bytes() =~= bytes@);
        Ok(blob)
    }
}

/// Key, nonce and sealed bytes can be read back from the bytes they are stored as:
/// two credentials with the same stored bytes are the same credential.
pub proof fn lemma_blob_bytes_unique(
    key1: Seq<u8>,
    nonce1: Seq<u8>,
    sealed1: Seq<u8>,
    key2: Seq<u8>,
    nonce2: Seq<u8>,
    sealed2: Seq<u8>,
)
    requires
        key1.len() == KEY_LEN,
        nonce1.len() == NONCE_LEN,
        key2.len() == KEY_LEN,
        nonce2.len() == NONCE_LEN,
        blob_bytes(key1, nonce1, sealed1) == blob_bytes(key2, nonce2, sealed2),
    ensures
        key1 == key2,
        nonce1 == nonce2,
        sealed1 == sealed2,
{
    let b1 = blob_bytes(key1, nonce1, sealed1);
    let b2 = blob_bytes(key2, nonce2, sealed2);
    assert(key1 =~= b1.subrange(0, KEY_LEN as int));
    assert(key2 =~= b2.subrange(0, KEY_LEN as int));
    assert(nonce1 =~= b1.subrange(KEY_LEN as int, HEADER_LEN as int));
    assert(nonce2 =~= b2.subrange(KEY_LEN as int, HEADER_LEN as int));
    assert(sealed1 =~= b1.subrange(HEADER_LEN as int, b1.len() as int));
    assert(sealed2 =~= b2.subrange(HEADER_LEN as int, b2.len() as int));
}

/// What reading a credential with the given key, nonce and sealed bytes can come
/// to: a secret that these very bytes seal under this key and nonce, or a refusal
/// by the cipher.
pub open spec fn authentic_or_refused(
    key: Seq<u8>,
    nonce: Seq<u8>,
    sealed: Seq<u8>,
    r: Result<String, AppError>,
) -> bool {
    match r {
        Ok(secret) => sealed == aes_256_gcm_sealed(key, nonce, encode_utf8(secret@)),
        Err(e) => e is Crypto,
    }
}

/// The error that reading `text` as a stored credential ends in, when it does.
pub open spec fn decrypt_failure(text: Seq<char>) -> AppError {
    if !is_base64(text) {
        AppError::Format(FormatError::NotBase64)
    } else if is_short_blob(text) {
        AppError::Format(FormatError::TooShort)
    } else if seals_non_utf8(text) {
        AppError::Crypto(CryptoError::NotUtf8)
    } else {
        AppError::Crypto(CryptoError::OpenFailed)
    }
}

/// Turns opened bytes into the secret: they must be UTF-8.
pub fn secret_from_opened(opened: Vec<u8>) -> (r: Result<String, AppError>)
    ensures
        r is Ok <==> valid_utf8(opened@),
        r matches Ok(s) ==> s@ == decode_utf8(opened@) && encode_utf8(s@) == opened@,
        r matches Err(e) ==> e == AppError::Crypto(CryptoError::NotUtf8),
{
    proof {
        if valid_utf8(opened@) {
            decode_utf8_encode_utf8(opened@);
        }
    }
    match string_from_utf8(opened) {
        Ok(s) => Ok(s),
        Err(_) => Err(AppError::Crypto(CryptoError::NotUtf8)),
    }
}

/// Two sealings under keys or nonces that differ give texts that differ, be the
/// secrets the same or not. So what `encrypt_password` gives twice for one secret
/// is the same text only if the generator drew the same key and nonce twice.
pub proof fn lemma_fresh_draw_fresh_text(
    text1: Seq<char>,
    key1: Seq<u8>,
    nonce1: Seq<u8>,
    secret1: Seq<char>,
    text2: Seq<char>,
    key2: Seq<u8>,
    nonce2: Seq<u8>,
    secret2: Seq<char>,
)
    requires
        key1.len() == KEY_LEN && nonce1.len() == NONCE_LEN,
        key2.len() == KEY_LEN && nonce2.len() == NONCE_LEN,
        text1 == blob_text(key1, nonce1, secret1) && stores_only(text1, key1, nonce1),
        text2 == blob_text(key2, nonce2, secret2) && stores_only(text2, key2, nonce2),
        key1 != key2 || nonce1 != nonce2,
    ensures
        text1 != text2,
{
    if text1 == text2 {
        let sealed2 = aes_256_gcm_sealed(key2, nonce2, encode_utf8(secret2));
        assert(text1 == base64_no_pad(blob_bytes(key2, nonce2, sealed2)));
    }
}

/// Seals `password` under a key and a nonce that the system's random generator
/// has just made, and gives the text to store.
///
/// With a generator that works, every password of at most `MAX_SECRET_LEN` bytes
/// is sealed. The call fails when the generator gives nothing; beyond that size
/// it also fails when the cipher refuses the input or the package is too long to
/// be written as text.
pub fn encrypt_password(password: &str) -> (r: Result<String, AppError>)
    ensures
        r matches Ok(text) ==> is_blob_of(text@, password@),
        r matches Err(e) ==> e == AppError::Crypto(CryptoError::RandomUnavailable) || (e
            == AppError::Crypto(CryptoError::SealFailed) && encode_utf8(password@).len()
            > MAX_SECRET_LEN),
{
    let key = match system_random(KEY_LEN) {
        Ok(bytes) => bytes,
        Err(_) => {
            return Err(AppError::Crypto(CryptoError::RandomUnavailable));
        },
    };
    let nonce = match system_random(NONCE_LEN) {
        Ok(bytes) => bytes,
        Err(_) => {
            return Err(AppError::Crypto(CryptoError::RandomUnavailable));
        },
    };
    seal_under(key, nonce, password)
}

/// Seals `password` under the given key and nonce and gives the text to store.
///
/// A key of 32 bytes and a nonce of 12 seal every password of at most
/// `MAX_SECRET_LEN` bytes. The call fails when key or nonce has another size;
/// beyond `MAX_SECRET_LEN` it also fails when the cipher refuses the input or the
/// package is longer than `MAX_ENCODABLE_LEN` bytes. The text stores this key and
/// this nonce and no others.
pub fn seal_under(key: Vec<u8>, nonce: Vec<u8>, password: &str) -> (r: Result<String, AppError>)
    ensures
        key@.len() == KEY_LEN && nonce@.len() == NONCE_LEN && encode_utf8(password@).len()
            <= MAX_SECRET_LEN ==> r is Ok,
        key@.len() != KEY_LEN || nonce@.len() != NONCE_LEN ==> r is Err,
        r matches Ok(text) ==> {
            &&& text@ == blob_text(key@, nonce@, password@)
            &&& seals_to_size(key@, nonce@, password@)
            &&& stores_only(text@, key@, nonce@)
        },
        r matches Err(e) ==> e == AppError::Crypto(CryptoError::SealFailed),
{
    if key.len() != KEY_LEN || nonce.len() != NONCE_LEN {
        return Err(AppError::Crypto(CryptoError::SealFailed));
    }
    let sealed = match aead_seal(key.as_slice(), nonce.as_slice(), password.as_bytes()) {
        Ok(bytes) => bytes,
        Err(_) => {
            return Err(AppError::Crypto(CryptoError::SealFailed));
        },
    };
    let ghost key_bytes = key@;
    let ghost nonce_bytes = nonce@;
    let ghost sealed_bytes = sealed@;
    let blob = CredentialBlob { key, nonce, sealed };
    let bytes = blob.to_bytes();
    if bytes.len() > MAX_ENCODABLE_LEN {
        return Err(AppError::Crypto(CryptoError::SealFailed));
    }
    let text = base64_encode(bytes.as_slice());
    proof {
        assert forall|k: Seq<u8>, n: Seq<u8>, s: Seq<u8>|
            k.len() == KEY_LEN && n.len() == NONCE_LEN && text@ == base64_no_pad(
                #[trigger] blob_bytes(k, n, s),
            ) implies k == key_bytes && n == nonce_bytes by {
            lemma_blob_bytes_unique(k, n, s, key_bytes, nonce_bytes, sealed_bytes);
        }
    }
    Ok(text)
}

/// Reads a stored credential back.
///
/// The secret comes back exactly when `encrypted` is a stored form of it, so what
/// `encrypt_password` gave for a secret always decrypts to that secret, and nothing
/// is ever returned that the text's own key and nonce do not authenticate.
/// Otherwise the error is `decrypt_failure(encrypted@)`: a format error for text
/// that is not base64 or decodes to fewer than 44 bytes, a crypto error for sealed
/// bytes that do not authenticate or that seal something other than UTF-8.
///
/// So a credential whose sealed bytes were altered after sealing never gives the
/// secret that was sealed, and never a format error: the last clause says what it
/// can give. That the cipher refuses every altered text is the cipher's promise,
/// which holds up to the chance of a forged tag, and is not restated here.
pub fn decrypt_password(encrypted: &str) -> (r: Result<String, AppError>)
    ensures
        forall|secret: Seq<char>|
            is_blob_of(encrypted@, secret) <==> (r matches Ok(s) && s@ == secret),
        r matches Err(e) ==> e == decrypt_failure(encrypted@),
        !is_base64(encrypted@) ==> r == Err::<String, AppError>(
            AppError::Format(FormatError::NotBase64),
        ),
        is_short_blob(encrypted@) ==> r == Err::<String, AppError>(
            AppError::Format(FormatError::TooShort),
        ),
        seals_non_utf8(encrypted@) ==> r == Err::<String, AppError>(
            AppError::Crypto(CryptoError::NotUtf8),
        ),
        forall|key: Seq<u8>, nonce: Seq<u8>, sealed: Seq<u8>|
            key.len() == KEY_LEN && nonce.len() == NONCE_LEN && encrypted@ == base64_no_pad(
                #[trigger] blob_bytes(key, nonce, sealed),
            ) ==> authentic_or_refused(key, nonce, sealed, r),
{
    let decoded = match base64_decode(encrypted) {
        Ok(bytes) => bytes,
        Err(_) => {
            return Err(AppError::Format(FormatError::NotBase64));
        },
    };
    assert(base64_no_pad(decoded@) == encrypted@);
    let blob = match CredentialBlob::from_bytes(decoded.as_slice()) {
        Ok(blob) => blob,
        Err(e) => {
            assert forall|secret: Seq<char>| !is_blob_of(encrypted@, secret) by {
                if is_blob_of(encrypted@, secret) {
                    let (key, nonce) = choose|key: Seq<u8>, nonce: Seq<u8>|
                        key.len() == KEY_LEN && nonce.len() == NONCE_LEN && encrypted@
                            == #[trigger] blob_text(key, nonce, secret) && seals_to_size(
                            key,
                            nonce,
                            secret,
                        );
                    assert(blob_bytes(
                        key,
                        nonce,
                        aes_256_gcm_sealed(key, nonce, encode_utf8(secret)),
                    ) == decoded@);
                }
            }
            return Err(e);
        },
    };
    let ghost key = blob.key@;
    let ghost nonce = blob.nonce@;
    let ghost sealed = blob.sealed@;
    assert(!is_short_blob(encrypted@));
    let opened = match aead_open(blob.key.as_slice(), blob.nonce.as_slice(), blob.sealed.as_slice()) {
        Ok(bytes) => bytes,
        Err(_) => {
            assert forall|secret: Seq<char>| !is_blob_of(encrypted@, secret) by {
                if is_blob_of(encrypted@, secret) {
                    let (k, n) = choose|k: Seq<u8>, n: Seq<u8>|
                        k.len() == KEY_LEN && n.len() == NONCE_LEN && encrypted@
                            == #[trigger] blob_text(k, n, secret) && seals_to_size(k, n, secret);
                    let s = aes_256_gcm_sealed(k, n, encode_utf8(secret));
                    assert(blob_bytes(k, n, s) == decoded@);
                    lemma_blob_bytes_unique(k, n, s, key, nonce, sealed);
                }
            }
            assert(!seals_non_utf8(encrypted@)) by {
                if seals_non_utf8(encrypted@) {
                    let (k, n, p) = choose|k: Seq<u8>, n: Seq<u8>, p: Seq<u8>|
                        k.len() == KEY_LEN && n.len() == NONCE_LEN && !valid_utf8(p) && encrypted@
                            == base64_no_pad(
                            #[trigger] blob_bytes(k, n, aes_256_gcm_sealed(k, n, p)),
                        );
                    let s = aes_256_gcm_sealed(k, n, p);
                    assert(blob_bytes(k, n, s) == decoded@);
                    lemma_blob_bytes_unique(k, n, s, key, nonce, sealed);
                }
            }
            return Err(AppError::Crypto(CryptoError::OpenFailed));
        },
    };
    let ghost plain = opened@;
    assert(aes_256_gcm_sealed(key, nonce, plain) == sealed);
    assert(blob_bytes(key, nonce, aes_256_gcm_sealed(key, nonce, plain)) == decoded@);
    let r = secret_from_opened(opened);
    proof {
        assert forall|secret: Seq<char>| is_blob_of(encrypted@, secret) implies (r matches Ok(s)
            && s@ == secret) by {
            let (k, n) = choose|k: Seq<u8>, n: Seq<u8>|
                k.len() == KEY_LEN && n.len() == NONCE_LEN && encrypted@ == #[trigger] blob_text(
                    k,
                    n,
                    secret,
                ) && seals_to_size(k, n, secret);
            let s = aes_256_gcm_sealed(k, n, encode_utf8(secret));
            assert(blob_bytes(k, n, s) == decoded@);
            lemma_blob_bytes_unique(k, n, s, key, nonce, sealed);
            assert(plain == encode_utf8(secret));
            encode_utf8_valid_utf8(secret);
            encode_utf8_decode_utf8(secret);
        }
        if seals_non_utf8(encrypted@) {
            let (k, n, p) = choose|k: Seq<u8>, n: Seq<u8>, p: Seq<u8>|
                k.len() == KEY_LEN && n.len() == NONCE_LEN && !valid_utf8(p) && encrypted@
                    == base64_no_pad(#[trigger] blob_bytes(k, n, aes_256_gcm_sealed(k, n, p)));
            let s = aes_256_gcm_sealed(k, n, p);
            assert(blob_bytes(k, n, s) == decoded@);
            lemma_blob_bytes_unique(k, n, s, key, nonce, sealed);
            assert(plain == p);
        }
        if r is Ok {
            assert(encrypted@ == blob_text(key, nonce, r->Ok_0@));
            assert(seals_to_size(key, nonce, r->Ok_0@));
        } else {
            assert(seals_non_utf8(encrypted@));
        }
        assert forall|k: Seq<u8>, n: Seq<u8>, s: Seq<u8>|
            k.len() == KEY_LEN && n.len() == NONCE_LEN && encrypted@ == base64_no_pad(
                #[trigger] blob_bytes(k, n, s),
            ) implies authentic_or_refused(k, n, s, r) by {
            lemma_blob_bytes_unique(k, n, s, key, nonce, sealed);
        }
    }
    r
}

} // verus!
