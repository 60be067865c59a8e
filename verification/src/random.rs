//! Random secrets: six-digit codes, verification tokens and device tokens.
use vstd::prelude::*;

use crate::crypto::{device_token_hash, hash_device_token};
use crate::hexenc::{hex_lower, is_lower_hex_char, lemma_hex_lower_shape, to_hex_lower};
use crate::numfmt::{six_digit_chars, six_digits};
use crate::text::{slice_chars, string_of};

verus! {

// ---------------------------------------------------------------------------
// Outside sources of randomness
// ---------------------------------------------------------------------------
/// `rand::Rng::gen_range(0..bound)` on the thread-local generator: some value
/// below `bound` (the range must not be empty, else the crate panics).
#[verifier::external_body]
fn random_below(bound: u32) -> (r: u32)
    requires
        bound > 0,
    ensures
        r < bound,
{
    rand::Rng::gen_range(&mut rand::thread_rng(), 0..bound)
}

/// `rand::RngCore::fill_bytes` on the thread-local generator: `n` random bytes.
#[verifier::external_body]
fn random_bytes(n: usize) -> (r: Vec<u8>)
    ensures
        r@.len() == n,
{
    let mut bytes = vec![0u8; n];
    rand::RngCore::fill_bytes(&mut rand::thread_rng(), &mut bytes);
    bytes
}

/// `uuid::Uuid::new_v4().as_bytes()`: 16 random bytes carrying the version-4
/// marker (high nibble of byte 6 is 4) and the RFC 4122 variant (top two bits
/// of byte 8 are `10`), as the crate's `new_v4` sets them.
#[verifier::external_body]
fn uuid_v4_bytes() -> (r: Vec<u8>)
    ensures
        r@.len() == 16,
        r@[6] / 16 == 4,
        r@[8] / 64 == 2,
{
    uuid::Uuid::new_v4().as_bytes().to_vec()
}

// ---------------------------------------------------------------------------
// Specifications
// ---------------------------------------------------------------------------
/// A string of exactly six ASCII digits.
pub open spec fn is_six_digit_code(s: Seq<char>) -> bool {
    s.len() == 6 && forall|i: int| 0 <= i < 6 ==> '0' <= #[trigger] s[i] <= '9'
}

/// A string made only of lowercase hex digits, of the given length.
pub open spec fn is_lower_hex_of_len(s: Seq<char>, n: nat) -> bool {
    s.len() == n && forall|i: int| 0 <= i < s.len() ==> is_lower_hex_char(#[trigger] s[i])
}

pub proof fn lemma_six_digits_is_code(v: nat)
    requires
        v < 1000000,
    ensures
        is_six_digit_code(six_digits(v)),
{
    let s = six_digits(v);
    assert forall|i: int| 0 <= i < 6 implies '0' <= #[trigger] s[i] <= '9' by {
        assert(s[i] == six_digits(v)[i]);
    }
}

// ---------------------------------------------------------------------------
// Operations
// ---------------------------------------------------------------------------
/// The six-digit, zero-padded rendering of `value % 1_000_000`.
pub fn format_numeric_code(value: u32) -> (r: String)
    ensures
        r@ == six_digits((value % 1000000) as nat),
        is_six_digit_code(r@),
{
    let cs = six_digit_chars(value % 1000000);
    proof {
        lemma_six_digits_is_code((value % 1000000) as nat);
    }
    string_of(cs.as_slice())
}

/// A fresh random six-digit code (email verification or parental link).
pub fn generate_numeric_code() -> (r: String)
    ensures
        is_six_digit_code(r@),
        exists|v: nat| v < 1000000 && r@ == six_digits(v),
{
    let v = random_below(1000000);
    let r = format_numeric_code(v);
    assert(r@ == six_digits(v as nat));
    r
}

/// A fresh email verification token: 32 random bytes in lowercase hex.
pub fn generate_verification_token() -> (r: String)
    ensures
        is_lower_hex_of_len(r@, 64),
{
    let bytes = random_bytes(32);
    let cs = to_hex_lower(bytes.as_slice());
    proof {
        lemma_hex_lower_shape(bytes@);
    }
    string_of(cs.as_slice())
}

/// A device token handed to a child device when a link is confirmed.
pub struct IssuedDeviceToken {
    /// The secret itself: 64 lowercase hex digits (two random UUIDs).
    pub plain: String,
    /// What the database keeps: the SHA-256 of `plain`.
    pub hash: String,
    /// What the child presents: `dt_` followed by `plain`.
    pub bearer: String,
}

/// Issues a new device token: the plain secret (the lowercase hex of two
/// random version-4 UUIDs), its stored hash and the `dt_`-prefixed
/// credential handed to the device.
pub fn issue_device_token() -> (r: IssuedDeviceToken)
    ensures
        is_lower_hex_of_len(r.plain@, 64),
        exists|a: Seq<u8>, b: Seq<u8>|
            is_v4_uuid_bytes(a) && is_v4_uuid_bytes(b) && r.plain@ == #[trigger] hex_lower(a + b),
        r.hash@ == device_token_hash(r.plain@),
        r.bearer@ == "dt_"@ + r.plain@,
{
    let a = uuid_v4_bytes();
    let b = uuid_v4_bytes();
    let mut bytes = a.clone();
    let mut k: usize = 0;
    while k < b.len()
        invariant
            0 <= k <= b@.len(),
            bytes@ == a@ + b@.take(k as int),
        decreases b@.len() - k,
    {
        bytes.push(b[k]);
        assert(b@.take(k + 1) =~= b@.take(k as int).push(b@[k as int]));
        k += 1;
    }
    assert(b@.take(b@.len() as int) =~= b@);
    let cs = to_hex_lower(bytes.as_slice());
    proof {
        lemma_hex_lower_shape(bytes@);
    }
    let plain = string_of(cs.as_slice());
    assert(is_v4_uuid_bytes(a@) && is_v4_uuid_bytes(b@) && plain@ == hex_lower(a@ + b@));
    let hash = hash_device_token(plain.as_str());
    let mut bearer = String::from_str("dt_");
    bearer.append(plain.as_str());
    IssuedDeviceToken { plain, hash, bearer }
}


/// The canonical text of a UUID's 16 bytes: lowercase hex in groups of
/// 8-4-4-4-12 digits joined by hyphens.
pub open spec fn uuid_text(bytes: Seq<u8>) -> Seq<char> {
    let h = hex_lower(bytes);
    h.subrange(0, 8) + "-"@ + h.subrange(8, 12) + "-"@ + h.subrange(12, 16) + "-"@ + h.subrange(
        16,
        20,
    ) + "-"@ + h.subrange(20, 32)
}

/// The bytes of a random (version 4, RFC 4122 variant) UUID.
pub open spec fn is_v4_uuid_bytes(bytes: Seq<u8>) -> bool {
    bytes.len() == 16 && bytes[6] / 16 == 4 && bytes[8] / 64 == 2
}

/// A fresh record id: the canonical text of a random version-4 UUID.
pub fn new_record_id() -> (r: String)
    ensures
        exists|b: Seq<u8>| is_v4_uuid_bytes(b) && r@ == #[trigger] uuid_text(b),
{
    let bytes = uuid_v4_bytes();
    let cs = to_hex_lower(bytes.as_slice());
    proof {
        lemma_hex_lower_shape(bytes@);
    }
    let mut r = string_of(slice_chars(cs.as_slice(), 0, 8).as_slice());
    r.append("-");
    r.append(string_of(slice_chars(cs.as_slice(), 8, 12).as_slice()).as_str());
    r.append("-");
    r.append(string_of(slice_chars(cs.as_slice(), 12, 16).as_slice()).as_str());
    r.append("-");
    r.append(string_of(slice_chars(cs.as_slice(), 16, 20).as_slice()).as_str());
    r.append("-");
    r.append(string_of(slice_chars(cs.as_slice(), 20, 32).as_slice()).as_str());
    assert(is_v4_uuid_bytes(bytes@));
    assert(r@ == uuid_text(bytes@));
    r
}

} // verus!
