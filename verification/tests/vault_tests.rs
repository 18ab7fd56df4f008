use base64::Engine;
use jira_git_helper::app_config::AppConfig;
use jira_git_helper::error::{AppError, CryptoError, FormatError};
use jira_git_helper::vault::{
    decrypt_password, encrypt_password, seal_under, secret_from_opened, CredentialBlob,
    HEADER_LEN, KEY_LEN, MAX_ENCODABLE_LEN, MAX_SECRET_LEN, NONCE_LEN, TAG_LEN,
};

fn encode(bytes: &[u8]) -> String {
    base64::engine::general_purpose::STANDARD_NO_PAD.encode(bytes)
}

fn decode(text: &str) -> Vec<u8> {
    base64::engine::general_purpose::STANDARD_NO_PAD.decode(text).unwrap()
}

/// Seals arbitrary bytes with the cipher itself, so that blobs can be made that
/// `encrypt_password` never makes.
fn seal_bytes(key: &[u8], nonce: &[u8], plaintext: &[u8]) -> Vec<u8> {
    let key = ring::aead::LessSafeKey::new(
        ring::aead::UnboundKey::new(&ring::aead::AES_256_GCM, key).unwrap(),
    );
    let nonce = ring::aead::Nonce::try_assume_unique_for_key(nonce).unwrap();
    let mut in_out = plaintext.to_vec();
    key.seal_in_place_append_tag(nonce, ring::aead::Aad::empty(), &mut in_out).unwrap();
    in_out
}

const ZERO_KEY_EMPTY_TAG: [u8; 16] =
    [83, 15, 138, 251, 199, 69, 54, 185, 169, 99, 180, 241, 196, 203, 115, 139];

#[test]
fn test_encrypt_and_decrypt_password() {
    let original_password = "my_secret_password";
    let app_config = AppConfig::new(
        "https://test.atlassian.net".to_string(),
        "testuser".to_string(),
        original_password.to_string(),
        "TEST".to_string(),
    )
    .unwrap();

    assert!(app_config.encrypted_password.is_some());
    let decrypted_password = app_config.get_password().unwrap();
    assert_eq!(decrypted_password, original_password);
}

#[test]
fn round_trip_gives_the_secret_back() {
    let secrets = [
        "",
        " ",
        "a",
        "my_secret_password",
        "p@ss w0rd!\"#$%&'()*+,-./:;<=>?[\\]^_`{|}~",
        "pässwörd",
        "密码🔑",
        "line\nbreak\ttab\0nul",
    ];
    for secret in secrets {
        let blob = encrypt_password(secret).unwrap();
        assert_eq!(decrypt_password(&blob), Ok(secret.to_string()));
    }
}

#[test]
fn round_trip_of_a_long_secret() {
    let secret = "x".repeat(100_000);
    let blob = encrypt_password(&secret).unwrap();
    assert_eq!(decrypt_password(&blob), Ok(secret));
}

#[test]
fn sealing_twice_gives_two_blobs() {
    let first = encrypt_password("same secret").unwrap();
    let second = encrypt_password("same secret").unwrap();
    assert_ne!(first, second);
    let a = decode(&first);
    let b = decode(&second);
    assert_ne!(a[..KEY_LEN], b[..KEY_LEN]);
    assert_ne!(a[KEY_LEN..HEADER_LEN], b[KEY_LEN..HEADER_LEN]);
}

#[test]
fn blob_is_key_nonce_ciphertext_and_tag() {
    let secret = "hunter2";
    let text = encrypt_password(secret).unwrap();
    assert!(!text.contains('='));
    let bytes = decode(&text);
    assert_eq!(bytes.len(), KEY_LEN + NONCE_LEN + secret.len() + 16);
    let sealed = seal_bytes(&bytes[..KEY_LEN], &bytes[KEY_LEN..HEADER_LEN], secret.as_bytes());
    assert_eq!(&bytes[HEADER_LEN..], &sealed[..]);
}

#[test]
fn sealing_under_a_given_key_matches_the_published_vectors() {
    let empty = seal_under(vec![0u8; 32], vec![0u8; 12], "").unwrap();
    assert_eq!(
        empty,
        "AAAAAAAAAAAAAAAAAAAAAAAAAAAAAAAAAAAAAAAAAAAAAAAAAAAAAAAAAABTD4r7x0U2ualjtPHEy3OL"
    );
    let zeros = "\0".repeat(16);
    let block = seal_under(vec![0u8; 32], vec![0u8; 12], &zeros).unwrap();
    assert_eq!(
        block,
        "AAAAAAAAAAAAAAAAAAAAAAAAAAAAAAAAAAAAAAAAAAAAAAAAAAAAAAAAAADOp0A9TWBrbgdOxdO6850Y0NHIp5mZa/AmW5i11Iq5GQ"
    );
    assert_eq!(decrypt_password(&empty), Ok(String::new()));
    assert_eq!(decrypt_password(&block), Ok(zeros));
}

#[test]
fn every_secret_within_the_limit_is_sealed() {
    assert_eq!(MAX_SECRET_LEN, 1 << 30);
    assert!(MAX_SECRET_LEN as u64 <= (1u64 << 36) - 32);
    assert!(MAX_SECRET_LEN + HEADER_LEN + TAG_LEN <= MAX_ENCODABLE_LEN);
    for len in [0usize, 1, 15, 16, 17, 4095, 4096, 1 << 20] {
        let secret = "s".repeat(len);
        let text = seal_under(vec![5u8; 32], vec![6u8; 12], &secret).unwrap();
        assert_eq!(decrypt_password(&text), Ok(secret.clone()));
        assert!(encrypt_password(&secret).is_ok());
    }
}

#[test]
fn another_key_or_nonce_gives_another_text() {
    let base = seal_under(vec![0u8; 32], vec![0u8; 12], "secret").unwrap();
    assert_eq!(seal_under(vec![0u8; 32], vec![0u8; 12], "secret"), Ok(base.clone()));
    for i in 0..32 {
        let mut key = vec![0u8; 32];
        key[i] = 1;
        assert_ne!(seal_under(key, vec![0u8; 12], "secret").unwrap(), base);
    }
    for i in 0..12 {
        let mut nonce = vec![0u8; 12];
        nonce[i] = 1;
        assert_ne!(seal_under(vec![0u8; 32], nonce, "secret").unwrap(), base);
    }
}

#[test]
fn a_key_or_nonce_of_the_wrong_size_seals_nothing() {
    let failed = Err(AppError::Crypto(CryptoError::SealFailed));
    assert_eq!(seal_under(vec![0u8; 31], vec![0u8; 12], "x"), failed);
    assert_eq!(seal_under(vec![0u8; 33], vec![0u8; 12], "x"), failed);
    assert_eq!(seal_under(vec![0u8; 32], vec![0u8; 11], "x"), failed);
    assert_eq!(seal_under(vec![0u8; 32], vec![0u8; 13], "x"), failed);
    assert_eq!(seal_under(Vec::new(), Vec::new(), "x"), failed);
}

#[test]
fn flipping_any_sealed_byte_is_detected() {
    let secret = "tamper with me";
    let text = encrypt_password(secret).unwrap();
    let bytes = decode(&text);
    for i in HEADER_LEN..bytes.len() {
        for bit in 0..8 {
            let mut tampered = bytes.clone();
            tampered[i] ^= 1 << bit;
            assert_eq!(
                decrypt_password(&encode(&tampered)),
                Err(AppError::Crypto(CryptoError::OpenFailed)),
                "byte {} bit {}",
                i,
                bit
            );
        }
    }
}

#[test]
fn a_changed_key_or_nonce_is_detected() {
    let text = encrypt_password("secret").unwrap();
    let bytes = decode(&text);
    for i in 0..HEADER_LEN {
        let mut tampered = bytes.clone();
        tampered[i] ^= 0x80;
        assert_eq!(
            decrypt_password(&encode(&tampered)),
            Err(AppError::Crypto(CryptoError::OpenFailed))
        );
    }
}

#[test]
fn a_truncated_or_extended_blob_is_detected() {
    let text = encrypt_password("secret").unwrap();
    let bytes = decode(&text);
    let shorter = &bytes[..bytes.len() - 1];
    assert_eq!(
        decrypt_password(&encode(shorter)),
        Err(AppError::Crypto(CryptoError::OpenFailed))
    );
    let mut longer = bytes.clone();
    longer.push(0);
    assert_eq!(
        decrypt_password(&encode(&longer)),
        Err(AppError::Crypto(CryptoError::OpenFailed))
    );
}

#[test]
fn short_blobs_are_a_format_error() {
    for len in 0..HEADER_LEN {
        let text = encode(&vec![7u8; len]);
        assert_eq!(
            decrypt_password(&text),
            Err(AppError::Format(FormatError::TooShort)),
            "{} bytes",
            len
        );
    }
    assert_eq!(decrypt_password(""), Err(AppError::Format(FormatError::TooShort)));
    let forty_three = "A".repeat(58);
    assert_eq!(decode(&forty_three).len(), 43);
    assert_eq!(decrypt_password(&forty_three), Err(AppError::Format(FormatError::TooShort)));
}

#[test]
fn a_header_without_sealed_bytes_does_not_open() {
    let forty_four = "A".repeat(59);
    assert_eq!(decode(&forty_four).len(), 44);
    assert_eq!(decrypt_password(&forty_four), Err(AppError::Crypto(CryptoError::OpenFailed)));
    let fifteen_more = encode(&vec![0u8; 59]);
    assert_eq!(decrypt_password(&fifteen_more), Err(AppError::Crypto(CryptoError::OpenFailed)));
}

#[test]
fn text_that_is_not_unpadded_base64_is_a_format_error() {
    let not_base64 = [
        "encrypted_password",
        "not base64 at all!",
        "A",
        "AAAAA",
        "AB==",
        "AAA=",
        "AAAA\n",
        " AAAA",
        "AA-_",
        "AB",
        "AAB",
        "pässwörd",
    ];
    for text in not_base64 {
        assert_eq!(
            decrypt_password(text),
            Err(AppError::Format(FormatError::NotBase64)),
            "{:?}",
            text
        );
    }
    let padded = base64::engine::general_purpose::STANDARD.encode(vec![0u8; 61]);
    assert!(padded.ends_with('='));
    assert_eq!(decrypt_password(&padded), Err(AppError::Format(FormatError::NotBase64)));
}

#[test]
fn sealed_bytes_that_are_not_utf8_are_a_crypto_error() {
    let key = [9u8; 32];
    let nonce = [3u8; 12];
    for plaintext in [&[0xffu8][..], &[0xc3, 0x28], &[b'o', b'k', 0x80], &[0xed, 0xa0, 0x80]] {
        let mut bytes = key.to_vec();
        bytes.extend_from_slice(&nonce);
        bytes.extend_from_slice(&seal_bytes(&key, &nonce, plaintext));
        assert_eq!(
            decrypt_password(&encode(&bytes)),
            Err(AppError::Crypto(CryptoError::NotUtf8))
        );
    }
}

#[test]
fn a_blob_made_elsewhere_with_the_same_format_is_read() {
    let key = [1u8; 32];
    let nonce = [2u8; 12];
    let mut bytes = key.to_vec();
    bytes.extend_from_slice(&nonce);
    bytes.extend_from_slice(&seal_bytes(&key, &nonce, "straße".as_bytes()));
    assert_eq!(decrypt_password(&encode(&bytes)), Ok("straße".to_string()));
}

#[test]
fn opened_bytes_become_the_secret_only_if_utf8() {
    assert_eq!(secret_from_opened(b"secret".to_vec()), Ok("secret".to_string()));
    assert_eq!(secret_from_opened(Vec::new()), Ok(String::new()));
    assert_eq!(secret_from_opened("密码".as_bytes().to_vec()), Ok("密码".to_string()));
    assert_eq!(
        secret_from_opened(vec![b'a', 0xff]),
        Err(AppError::Crypto(CryptoError::NotUtf8))
    );
}

#[test]
fn stored_bytes_split_after_key_and_nonce() {
    let bytes: Vec<u8> = (0u8..60).collect();
    let blob = CredentialBlob::from_bytes(&bytes).unwrap();
    assert_eq!(blob.key, (0u8..32).collect::<Vec<u8>>());
    assert_eq!(blob.nonce, (32u8..44).collect::<Vec<u8>>());
    assert_eq!(blob.sealed, (44u8..60).collect::<Vec<u8>>());
    assert_eq!(blob.to_bytes(), bytes);

    let header_only = CredentialBlob::from_bytes(&bytes[..44]).unwrap();
    assert!(header_only.sealed.is_empty());
    assert_eq!(header_only.to_bytes(), &bytes[..44]);

    assert_eq!(
        CredentialBlob::from_bytes(&bytes[..43]),
        Err(AppError::Format(FormatError::TooShort))
    );
    assert_eq!(CredentialBlob::from_bytes(&[]), Err(AppError::Format(FormatError::TooShort)));
}

#[test]
fn stored_bytes_are_key_then_nonce_then_sealed() {
    let blob = CredentialBlob { key: vec![1; 32], nonce: vec![2; 12], sealed: vec![3; 5] };
    let bytes = blob.to_bytes();
    assert_eq!(bytes.len(), 49);
    assert_eq!(&bytes[..32], &[1u8; 32][..]);
    assert_eq!(&bytes[32..44], &[2u8; 12][..]);
    assert_eq!(&bytes[44..], &[3u8; 5][..]);
    assert_eq!(CredentialBlob::from_bytes(&bytes), Ok(blob));
}

#[test]
fn the_empty_tag_vector_is_what_the_cipher_gives() {
    assert_eq!(seal_bytes(&[0u8; 32], &[0u8; 12], b""), ZERO_KEY_EMPTY_TAG.to_vec());
}

#[test]
fn settings_without_a_password_report_it_missing() {
    let config = AppConfig {
        jira_url: "https://test.atlassian.net".to_string(),
        username: "testuser".to_string(),
        encrypted_password: None,
        jira_id_prefix: "TEST".to_string(),
    };
    assert_eq!(config.get_password(), Err(AppError::ConfigMissing));
}

#[test]
fn settings_with_unreadable_password_say_why() {
    let mut config = AppConfig::new(
        "https://test.atlassian.net".to_string(),
        "testuser".to_string(),
        "pw".to_string(),
        "TEST".to_string(),
    )
    .unwrap();
    assert_eq!(config.jira_url, "https://test.atlassian.net");
    assert_eq!(config.username, "testuser");
    assert_eq!(config.jira_id_prefix, "TEST");
    config.encrypted_password = Some("encrypted_password".to_string());
    assert_eq!(config.get_password(), Err(AppError::Format(FormatError::NotBase64)));
    config.encrypted_password = Some("AAAA".to_string());
    assert_eq!(config.get_password(), Err(AppError::Format(FormatError::TooShort)));
}
