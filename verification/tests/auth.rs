use discord_chatbot::auth::{validate_request, AuthError, HeaderText};
use ed25519_dalek::{ExpandedSecretKey, PublicKey, SecretKey};

const TIMESTAMP: &str = "1677628800";
const BODY: &[u8] = b"{\"type\":1}";

fn keys() -> (ExpandedSecretKey, PublicKey) {
    let secret = SecretKey::from_bytes(&[7u8; 32]).unwrap();
    let public = PublicKey::from(&secret);
    (ExpandedSecretKey::from(&secret), public)
}

fn public_key_hex() -> String {
    hex::encode(keys().1.to_bytes())
}

fn sign(timestamp: &str, body: &[u8]) -> String {
    let (secret, public) = keys();
    let mut message = timestamp.as_bytes().to_vec();
    message.extend_from_slice(body);
    hex::encode(secret.sign(&message, &public).to_bytes())
}

fn text(value: &str) -> HeaderText {
    HeaderText::Text(value.to_string())
}

fn flip(hex_text: &str, at: usize) -> String {
    let mut digits: Vec<char> = hex_text.chars().collect();
    let value = digits[at].to_digit(16).unwrap();
    digits[at] = std::char::from_digit(value ^ 1, 16).unwrap();
    digits.into_iter().collect()
}

#[test]
fn signature_over_timestamp_and_body_passes() {
    let signature = sign(TIMESTAMP, BODY);
    assert_eq!(
        validate_request(&public_key_hex(), &text(&signature), &text(TIMESTAMP), BODY),
        Ok(())
    );
}

#[test]
fn upper_case_signature_and_key_pass() {
    let signature = sign(TIMESTAMP, BODY).to_uppercase();
    let key = public_key_hex().to_uppercase();
    assert_eq!(validate_request(&key, &text(&signature), &text(TIMESTAMP), BODY), Ok(()));
}

#[test]
fn signature_covers_the_body_as_it_arrived() {
    let signature = sign(TIMESTAMP, BODY);
    let spaced: &[u8] = b"{\"type\": 1}";
    assert_eq!(
        validate_request(&public_key_hex(), &text(&signature), &text(TIMESTAMP), spaced),
        Err(AuthError::InvalidSignature)
    );
}

#[test]
fn changed_body_bit_is_rejected() {
    let signature = sign(TIMESTAMP, BODY);
    let mut body = BODY.to_vec();
    body[3] ^= 1;
    assert_eq!(
        validate_request(&public_key_hex(), &text(&signature), &text(TIMESTAMP), &body),
        Err(AuthError::InvalidSignature)
    );
}

#[test]
fn changed_timestamp_is_rejected() {
    let signature = sign(TIMESTAMP, BODY);
    assert_eq!(
        validate_request(&public_key_hex(), &text(&signature), &text("1677628801"), BODY),
        Err(AuthError::InvalidSignature)
    );
}

#[test]
fn timestamp_and_body_are_joined_without_separator() {
    let signature = sign("16776288", b"00{\"type\":1}");
    assert_eq!(
        validate_request(&public_key_hex(), &text(&signature), &text(TIMESTAMP), BODY),
        Ok(())
    );
}

#[test]
fn changed_signature_bit_is_rejected() {
    let signature = sign(TIMESTAMP, BODY);
    for at in [0usize, 17, 63, 64, 100] {
        let changed = flip(&signature, at);
        let result = validate_request(&public_key_hex(), &text(&changed), &text(TIMESTAMP), BODY);
        assert!(
            result == Err(AuthError::InvalidSignature)
                || result == Err(AuthError::MalformedSignature)
        );
    }
}

#[test]
fn signature_by_another_key_is_rejected() {
    let other = SecretKey::from_bytes(&[9u8; 32]).unwrap();
    let other_public = PublicKey::from(&other);
    let mut message = TIMESTAMP.as_bytes().to_vec();
    message.extend_from_slice(BODY);
    let signature = hex::encode(
        ExpandedSecretKey::from(&other).sign(&message, &other_public).to_bytes(),
    );
    assert_eq!(
        validate_request(&public_key_hex(), &text(&signature), &text(TIMESTAMP), BODY),
        Err(AuthError::InvalidSignature)
    );
}

#[test]
fn missing_signature_header() {
    assert_eq!(
        validate_request(&public_key_hex(), &HeaderText::Missing, &text(TIMESTAMP), BODY),
        Err(AuthError::MissingSignature)
    );
}

#[test]
fn missing_signature_is_named_before_missing_timestamp() {
    assert_eq!(
        validate_request(&public_key_hex(), &HeaderText::Missing, &HeaderText::Missing, BODY),
        Err(AuthError::MissingSignature)
    );
}

#[test]
fn unreadable_signature_header() {
    assert_eq!(
        validate_request(&public_key_hex(), &HeaderText::Unreadable, &text(TIMESTAMP), BODY),
        Err(AuthError::UnreadableSignature)
    );
}

#[test]
fn missing_timestamp_header() {
    let signature = sign(TIMESTAMP, BODY);
    assert_eq!(
        validate_request(&public_key_hex(), &text(&signature), &HeaderText::Missing, BODY),
        Err(AuthError::MissingTimestamp)
    );
}

#[test]
fn unreadable_timestamp_header() {
    let signature = sign(TIMESTAMP, BODY);
    assert_eq!(
        validate_request(&public_key_hex(), &text(&signature), &HeaderText::Unreadable, BODY),
        Err(AuthError::UnreadableTimestamp)
    );
}

#[test]
fn body_that_is_not_utf8() {
    let body: &[u8] = &[0x7b, 0xff, 0x7d];
    let signature = sign(TIMESTAMP, body);
    assert_eq!(
        validate_request(&public_key_hex(), &text(&signature), &text(TIMESTAMP), body),
        Err(AuthError::UnreadableBody)
    );
}

#[test]
fn public_key_that_is_not_hex() {
    let signature = sign(TIMESTAMP, BODY);
    assert_eq!(
        validate_request("not hex", &text(&signature), &text(TIMESTAMP), BODY),
        Err(AuthError::InvalidPublicKey)
    );
}

#[test]
fn public_key_of_odd_length() {
    let signature = sign(TIMESTAMP, BODY);
    let mut key = public_key_hex();
    key.pop();
    assert_eq!(
        validate_request(&key, &text(&signature), &text(TIMESTAMP), BODY),
        Err(AuthError::InvalidPublicKey)
    );
}

#[test]
fn public_key_of_wrong_size() {
    let signature = sign(TIMESTAMP, BODY);
    assert_eq!(
        validate_request("0102", &text(&signature), &text(TIMESTAMP), BODY),
        Err(AuthError::InvalidPublicKey)
    );
}

#[test]
fn signature_that_is_too_short() {
    assert_eq!(
        validate_request(&public_key_hex(), &text("abcd"), &text(TIMESTAMP), BODY),
        Err(AuthError::MalformedSignature)
    );
}

#[test]
fn signature_that_is_not_hex() {
    let signature = "g".repeat(128);
    assert_eq!(
        validate_request(&public_key_hex(), &text(&signature), &text(TIMESTAMP), BODY),
        Err(AuthError::MalformedSignature)
    );
}

#[test]
fn signature_of_mixed_case() {
    let signature = sign(TIMESTAMP, BODY);
    let lower = signature.find(|c: char| c.is_ascii_lowercase()).unwrap();
    let mut mixed = signature.to_uppercase();
    mixed.replace_range(lower..lower + 1, &signature[lower..lower + 1]);
    assert!(mixed.chars().any(|c| c.is_ascii_uppercase()));
    assert_eq!(
        validate_request(&public_key_hex(), &text(&mixed), &text(TIMESTAMP), BODY),
        Err(AuthError::MalformedSignature)
    );
}

#[test]
fn signature_with_high_bits_set() {
    let signature = format!("{}{}", "0".repeat(126), "e0");
    assert_eq!(
        validate_request(&public_key_hex(), &text(&signature), &text(TIMESTAMP), BODY),
        Err(AuthError::MalformedSignature)
    );
}

#[test]
fn well_formed_signature_of_nothing_is_invalid() {
    let signature = "0".repeat(128);
    assert_eq!(
        validate_request(&public_key_hex(), &text(&signature), &text(TIMESTAMP), BODY),
        Err(AuthError::InvalidSignature)
    );
}
