//! Authentication of requests: an Ed25519 signature over the time stamp
//! and the body, held against the bot's public key.

use std::str::FromStr;
use vstd::prelude::*;
use vstd::string::StringSliceAdditionalSpecFns;
use vstd::utf8::{encode_utf8, valid_utf8};
use crate::text::{append_bytes, is_utf8};

verus! {

/// The value of the hexadecimal digit `digit`.
pub open spec fn hex_digit(digit: u8) -> Option<u8> {
    if 48 <= digit <= 57 {
        Some((digit - 48) as u8)
    } else if 97 <= digit <= 102 {
        Some((digit - 87) as u8)
    } else if 65 <= digit <= 70 {
        Some((digit - 55) as u8)
    } else {
        None
    }
}

/// Whether `text` is an even number of hexadecimal digits, of either case.
pub open spec fn is_hex(text: Seq<u8>) -> bool {
    text.len() % 2 == 0 && forall|i: int| 0 <= i < text.len() ==> hex_digit(#[trigger] text[i]) is Some
}

/// The bytes that the hexadecimal digits of `text` stand for, two digits a
/// byte, the higher digit first.
pub open spec fn hex_bytes(text: Seq<u8>) -> Seq<u8> {
    Seq::new(
        text.len() / 2,
        |i: int| (hex_digit(text[2 * i])->Some_0 * 16 + hex_digit(text[2 * i + 1])->Some_0) as u8,
    )
}

/// Whether `text` is the hexadecimal form of a signature: 128 digits whose
/// letters are all of one case, the last byte with its three highest bits
/// clear.
pub open spec fn is_signature_text(text: Seq<u8>) -> bool {
    &&& text.len() == 128
    &&& is_hex(text)
    &&& !((exists|i: int| 0 <= i < text.len() && 97 <= #[trigger] text[i] <= 102) && (exists|
        j: int,
    | 0 <= j < text.len() && 65 <= #[trigger] text[j] <= 70))
    &&& hex_bytes(text)[63] < 32
}

/// Whether `ed25519_dalek` takes `key` for a public key: 32 bytes that
/// are the compressed form of a point of the curve.
pub uninterp spec fn public_key_accepted(key: Seq<u8>) -> bool;

/// Whether `ed25519_dalek`'s strict verification finds `signature` to be a
/// signature over `message` by the holder of `key`.
pub uninterp spec fn strict_verdict(key: Seq<u8>, message: Seq<u8>, signature: Seq<u8>) -> bool;

#[verifier::external_type_specification]
#[verifier::external_body]
pub struct ExFromHexError(hex::FromHexError);

#[verifier::external_type_specification]
#[verifier::external_body]
pub struct ExSignatureError(ed25519_dalek::SignatureError);

/// Calls `hex::decode`. It succeeds exactly on an even number of
/// hexadecimal digits, upper or lower case or mixed, and then returns the
/// bytes they stand for.
#[verifier::external_body]
fn hex_decode(digits: &[u8]) -> (bytes: Result<Vec<u8>, hex::FromHexError>)
    ensures
        bytes is Ok == is_hex(digits@),
        bytes is Ok ==> bytes->Ok_0@ == hex_bytes(digits@),
{
    hex::decode(digits)
}

/// Calls `ed25519_dalek::Signature::from_str` and hands the signature back
/// as its 64 bytes. It succeeds exactly on 128 hexadecimal digits of one
/// case whose last byte has its three highest bits clear.
#[verifier::external_body]
fn signature_from_str(digits: &str) -> (parsed: Result<Vec<u8>, ed25519_dalek::SignatureError>)
    ensures
        parsed is Ok == is_signature_text(digits.spec_bytes()),
        parsed is Ok ==> parsed->Ok_0@ == hex_bytes(digits.spec_bytes()),
{
    ed25519_dalek::Signature::from_str(digits).map(|signature| signature.to_bytes().to_vec())
}

/// Calls `ed25519_dalek::PublicKey::from_bytes` and says whether it took
/// the bytes for a public key. The contract gives the answer the name
/// [`public_key_accepted`].
#[verifier::external_body]
fn public_key_from_bytes(key: &[u8]) -> (accepted: bool)
    ensures
        accepted == public_key_accepted(key@),
{
    ed25519_dalek::PublicKey::from_bytes(key).is_ok()
}

/// Calls `ed25519_dalek::PublicKey::verify_strict` on the key and the
/// signature that the bytes stand for, and says whether it accepted. The
/// contract gives the answer the name [`strict_verdict`].
#[verifier::external_body]
fn verify_strict(key: &[u8], message: &[u8], signature: &[u8]) -> (valid: bool)
    requires
        public_key_accepted(key@),
        signature@.len() == 64,
        signature@[63] < 32,
    ensures
        valid == strict_verdict(key@, message@, signature@),
{
    let key = ed25519_dalek::PublicKey::from_bytes(key).unwrap();
    let signature = ed25519_dalek::Signature::from_bytes(signature).unwrap();
    key.verify_strict(message, &signature).is_ok()
}

/// What a request carries under one header name.
#[derive(Debug, Clone, PartialEq)]
pub enum HeaderText {
    /// The request has no such header.
    Missing,
    /// The header is there, but its value is not text.
    Unreadable,
    /// The header's value.
    Text(String),
}

/// Mathematical model of a [`HeaderText`].
pub ghost enum HeaderTextView {
    Missing,
    Unreadable,
    Text(Seq<char>),
}

impl View for HeaderText {
    type V = HeaderTextView;

    open spec fn view(&self) -> HeaderTextView {
        match self {
            HeaderText::Missing => HeaderTextView::Missing,
            HeaderText::Unreadable => HeaderTextView::Unreadable,
            HeaderText::Text(text) => HeaderTextView::Text(text@),
        }
    }
}

/// Why a request was turned away.
#[derive(Debug, Clone, Copy, PartialEq, Eq)]
pub enum AuthError {
    /// The request has no signature header.
    MissingSignature,
    /// The signature header is not text.
    UnreadableSignature,
    /// The request has no time stamp header.
    MissingTimestamp,
    /// The time stamp header is not text.
    UnreadableTimestamp,
    /// The body is not UTF-8.
    UnreadableBody,
    /// The bot's public key is not the hexadecimal form of a public key.
    InvalidPublicKey,
    /// The signature header is not the hexadecimal form of a signature.
    MalformedSignature,
    /// The signature is not one over this request by the holder of the
    /// key.
    InvalidSignature,
}

/// What is signed: the time stamp, then the body, with nothing between.
pub open spec fn signed_message(timestamp: Seq<char>, body: Seq<u8>) -> Seq<u8> {
    encode_utf8(timestamp) + body
}

/// The verdict on a request. The checks come in this order, and the first
/// that fails names the error: both headers are there and are text, the
/// body is UTF-8, the public key is the hexadecimal form of a key, the
/// signature header is the hexadecimal form of a signature, and the
/// signature is valid over [`signed_message`].
pub open spec fn verdict(
    public_key: Seq<char>,
    signature: HeaderTextView,
    timestamp: HeaderTextView,
    body: Seq<u8>,
) -> Result<(), AuthError> {
    match (signature, timestamp) {
        (HeaderTextView::Missing, _) => Err(AuthError::MissingSignature),
        (HeaderTextView::Unreadable, _) => Err(AuthError::UnreadableSignature),
        (_, HeaderTextView::Missing) => Err(AuthError::MissingTimestamp),
        (_, HeaderTextView::Unreadable) => Err(AuthError::UnreadableTimestamp),
        (HeaderTextView::Text(signature), HeaderTextView::Text(timestamp)) => {
            if !valid_utf8(body) {
                Err(AuthError::UnreadableBody)
            } else if !is_hex(encode_utf8(public_key)) || !public_key_accepted(
                hex_bytes(encode_utf8(public_key)),
            ) {
                Err(AuthError::InvalidPublicKey)
            } else if !is_signature_text(encode_utf8(signature)) {
                Err(AuthError::MalformedSignature)
            } else if !strict_verdict(
                hex_bytes(encode_utf8(public_key)),
                signed_message(timestamp, body),
                hex_bytes(encode_utf8(signature)),
            ) {
                Err(AuthError::InvalidSignature)
            } else {
                Ok(())
            }
        },
    }
}

/// A request is let in exactly when both headers are there as text,
/// the body is UTF-8, key and signature are well-formed, and strict
/// verification accepts the signature over the time stamp followed by the
/// body. So a request whose signature was made over other bytes passes
/// only if the signature is also valid for these.
pub proof fn lemma_signature_decides(
    public_key: Seq<char>,
    signature: HeaderTextView,
    timestamp: HeaderTextView,
    body: Seq<u8>,
)
    ensures
        verdict(public_key, signature, timestamp, body) is Ok <==> {
            &&& signature is Text
            &&& timestamp is Text
            &&& valid_utf8(body)
            &&& is_hex(encode_utf8(public_key))
            &&& public_key_accepted(hex_bytes(encode_utf8(public_key)))
            &&& is_signature_text(encode_utf8(signature->Text_0))
            &&& strict_verdict(
                hex_bytes(encode_utf8(public_key)),
                encode_utf8(timestamp->Text_0) + body,
                hex_bytes(encode_utf8(signature->Text_0)),
            )
        },
{
}

/// Checks that a request comes from Discord: `signature` must be a valid
/// Ed25519 signature, under the key whose hexadecimal form is
/// `public_key`, over the bytes of `timestamp` followed by `body` exactly
/// as it arrived.
pub fn validate_request(
    public_key: &str,
    signature: &HeaderText,
    timestamp: &HeaderText,
    body: &[u8],
) -> (result: Result<(), AuthError>)
    ensures
        result == verdict(public_key@, signature@, timestamp@, body@),
{
    let signature = match signature {
        HeaderText::Missing => { return Err(AuthError::MissingSignature); },
        HeaderText::Unreadable => { return Err(AuthError::UnreadableSignature); },
        HeaderText::Text(text) => text,
    };
    let timestamp = match timestamp {
        HeaderText::Missing => { return Err(AuthError::MissingTimestamp); },
        HeaderText::Unreadable => { return Err(AuthError::UnreadableTimestamp); },
        HeaderText::Text(text) => text,
    };
    if !is_utf8(body) {
        return Err(AuthError::UnreadableBody);
    }
    let key = match hex_decode(public_key.as_bytes()) {
        Ok(key) => key,
        Err(_) => { return Err(AuthError::InvalidPublicKey); },
    };
    if !public_key_from_bytes(key.as_slice()) {
        return Err(AuthError::InvalidPublicKey);
    }
    let signature = match signature_from_str(signature.as_str()) {
        Ok(signature) => signature,
        Err(_) => { return Err(AuthError::MalformedSignature); },
    };
    let mut message: Vec<u8> = Vec::new();
    append_bytes(&mut message, timestamp.as_str().as_bytes());
    append_bytes(&mut message, body);
    assert(message@ =~= signed_message(timestamp@, body@));
    if verify_strict(key.as_slice(), message.as_slice(), signature.as_slice()) {
        Ok(())
    } else {
        Err(AuthError::InvalidSignature)
    }
}

} // verus!
