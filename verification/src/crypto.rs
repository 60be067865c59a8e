//! Hashing and comparison of secrets: SHA-256 of device tokens, HMAC-SHA256 of
//! email verification codes and tokens, and constant-time comparison.
use vstd::prelude::*;
use vstd::utf8::encode_utf8;

use crate::hexenc::{hex_lower, to_hex_lower};
use crate::text::string_of;

verus! {

broadcast use vstd::utf8::encode_utf8_decode_utf8;

// ---------------------------------------------------------------------------
// Outside computations
// ---------------------------------------------------------------------------
/// Names the SHA-256 digest that the `sha2` crate computes for a byte string.
pub uninterp spec fn sha256_of(data: Seq<u8>) -> Seq<u8>;

/// Names the HMAC-SHA256 tag that the `hmac` crate (over `sha2::Sha256`)
/// computes for a key and a message.
pub uninterp spec fn hmac_sha256_of(key: Seq<u8>, msg: Seq<u8>) -> Seq<u8>;

/// `sha2::Sha256::digest`: the contract ties the digest to the input through
/// `sha256_of` and states its documented size (32 bytes); the compression
/// function itself is not restated.
#[verifier::external_body]
fn sha256(data: &[u8]) -> (r: Vec<u8>)
    ensures
        r@ == sha256_of(data@),
        r@.len() == 32,
{
    <sha2::Sha256 as sha2::Digest>::digest(data).to_vec()
}

/// `hmac::Hmac<sha2::Sha256>`: `new_from_slice`, `update`, `finalize`. HMAC
/// accepts keys of any length (the crate's `new_from_slice` always returns
/// `Ok` for it). The contract ties the tag to key and message through
/// `hmac_sha256_of` and states its size (32 bytes).
#[verifier::external_body]
fn hmac_sha256(key: &[u8], msg: &[u8]) -> (r: Vec<u8>)
    ensures
        r@ == hmac_sha256_of(key@, msg@),
        r@.len() == 32,
{
    let mut mac = <hmac::Hmac<sha2::Sha256> as hmac::Mac>::new_from_slice(key).expect(
        "HMAC takes keys of any length",
    );
    hmac::Mac::update(&mut mac, msg);
    hmac::Mac::finalize(mac).into_bytes().to_vec()
}

/// `subtle::ConstantTimeEq::ct_eq` on byte slices, turned into a `bool`. The
/// crate answers 0 for slices of different lengths and otherwise the
/// conjunction of the byte-wise equalities, so the result is exactly whether
/// the slices are equal.
#[verifier::external_body]
fn ct_bytes_eq(a: &[u8], b: &[u8]) -> (r: bool)
    ensures
        r == (a@ == b@),
{
    bool::from(subtle::ConstantTimeEq::ct_eq(a, b))
}

// ---------------------------------------------------------------------------
// Specifications
// ---------------------------------------------------------------------------
/// The stored form of a device token: lowercase hex of the SHA-256 of its
/// UTF-8 bytes.
pub open spec fn device_token_hash(plain: Seq<char>) -> Seq<char> {
    hex_lower(sha256_of(encode_utf8(plain)))
}

/// Lowercase hex of the HMAC-SHA256 of `message` under `secret`, both taken
/// as UTF-8 bytes.
pub open spec fn hmac_hex(secret: Seq<char>, message: Seq<char>) -> Seq<char> {
    hex_lower(hmac_sha256_of(encode_utf8(secret), encode_utf8(message)))
}

/// The message whose HMAC identifies a verification code sent to `email`.
pub open spec fn email_code_message(email: Seq<char>, code: Seq<char>) -> Seq<char> {
    "email-code:"@ + email + ":"@ + code
}

/// The message whose HMAC identifies an email verification token.
pub open spec fn email_token_message(token: Seq<char>) -> Seq<char> {
    "email-token:"@ + token
}

// ---------------------------------------------------------------------------
// Operations
// ---------------------------------------------------------------------------
fn hex_string(bytes: &[u8]) -> (r: String)
    ensures
        r@ == hex_lower(bytes@),
{
    let cs = to_hex_lower(bytes);
    string_of(cs.as_slice())
}

/// SHA-256 of a plain device token, hex-encoded in lowercase. Used both when
/// a token is issued (to store its hash) and when it is presented (to look
/// the hash up).
pub fn hash_device_token(plain: &str) -> (r: String)
    ensures
        r@ == device_token_hash(plain@),
        r@ == hex_lower(sha256_of(encode_utf8(plain@))),
{
    let digest = sha256(plain.as_bytes());
    hex_string(digest.as_slice())
}

/// HMAC-SHA256 of `message` under `secret`, hex-encoded in lowercase.
pub fn hmac_sha256_hex(secret: &str, message: &str) -> (r: String)
    ensures
        r@ == hmac_hex(secret@, message@),
{
    let tag = hmac_sha256(secret.as_bytes(), message.as_bytes());
    hex_string(tag.as_slice())
}

/// The keyed hash stored for a verification `code` sent to `email`.
pub fn email_code_hash(secret: &str, email: &str, code: &str) -> (r: String)
    ensures
        r@ == hmac_hex(secret@, email_code_message(email@, code@)),
{
    let mut message = String::from_str("email-code:");
    message.append(email);
    message.append(":");
    message.append(code);
    hmac_sha256_hex(secret, message.as_str())
}

/// The keyed hash stored for an email verification `token`.
pub fn email_token_hash(secret: &str, token: &str) -> (r: String)
    ensures
        r@ == hmac_hex(secret@, email_token_message(token@)),
{
    let mut message = String::from_str("email-token:");
    message.append(token);
    hmac_sha256_hex(secret, message.as_str())
}

/// Whether two hashes are equal, comparing their bytes in constant time when
/// their lengths agree.
pub fn constant_time_eq(a: &str, b: &str) -> (r: bool)
    ensures
        r == (a@ == b@),
{
    if a.len() != b.len() {
        return false;
    }
    let r = ct_bytes_eq(a.as_bytes(), b.as_bytes());
    proof {
        if r {
            assert(decode_of(encode_utf8(a@)) == a@);
            assert(decode_of(encode_utf8(b@)) == b@);
        }
    }
    r
}

spec fn decode_of(bytes: Seq<u8>) -> Seq<char> {
    vstd::utf8::decode_utf8(bytes)
}

// ---------------------------------------------------------------------------
// Laws
// ---------------------------------------------------------------------------
/// Codes and tokens are hashed under distinct domains: no code message is
/// ever a token message, whatever the email, code and token.
pub proof fn lemma_code_and_token_messages_differ(email: Seq<char>, code: Seq<char>, token: Seq<char>)
    ensures
        email_code_message(email, code) != email_token_message(token),
{
    reveal_strlit("email-code:");
    reveal_strlit("email-token:");
    let m1 = email_code_message(email, code);
    let m2 = email_token_message(token);
    assert(m1[6] == 'c');
    assert(m2[6] == 't');
}


/// The stored form of a device token is computed from the whole token: it
/// is the lowercase hex of the SHA-256 of all its UTF-8 bytes, and two
/// different tokens are hashed from different byte strings, so no token
/// that differs from an issued one anywhere is hashed from the same input.
pub proof fn lemma_device_token_hash_reads_whole_token(p1: Seq<char>, p2: Seq<char>)
    ensures
        device_token_hash(p1) == hex_lower(sha256_of(encode_utf8(p1))),
        p1 != p2 ==> encode_utf8(p1) != encode_utf8(p2),
{
    if encode_utf8(p1) == encode_utf8(p2) {
        assert(decode_of(encode_utf8(p1)) == p1);
        assert(decode_of(encode_utf8(p2)) == p2);
    }
}

} // verus!
