//! Signature primitives: hex decoding of a digest string and HMAC-SHA1
//! verification of a payload.

use vstd::prelude::*;

verus! {

/// The largest input length, in bytes, that the HMAC computation is used
/// with. Staying far below SHA-1's astronomical input limit keeps every
/// call well-defined.
pub const MAX_HMAC_INPUT: u64 = 0x1000_0000_0000_0000;

/// Whether `c` is a hexadecimal digit, in either case.
pub open spec fn is_hex_digit(c: char) -> bool {
    ('0' <= c && c <= '9') || ('a' <= c && c <= 'f') || ('A' <= c && c <= 'F')
}

/// The value of one hexadecimal digit.
pub open spec fn hex_val(c: char) -> int {
    if '0' <= c && c <= '9' {
        c as int - '0' as int
    } else if 'a' <= c && c <= 'f' {
        c as int - 'a' as int + 10
    } else {
        c as int - 'A' as int + 10
    }
}

/// Whether a whole string is well-formed hexadecimal: an even number of
/// characters, all of them hex digits.
pub open spec fn hex_ok(s: Seq<char>) -> bool {
    s.len() % 2 == 0 && (forall|i: int| 0 <= i < s.len() ==> is_hex_digit(s[i]))
}

/// The bytes a well-formed hexadecimal string stands for, two digits per
/// byte.
pub open spec fn hex_decode(s: Seq<char>) -> Seq<u8>
    decreases s.len(),
{
    if s.len() < 2 {
        Seq::empty()
    } else {
        seq![((hex_val(s[0]) * 16 + hex_val(s[1])) % 256) as u8] + hex_decode(s.skip(2))
    }
}

/// Relies on hex::decode: succeeds exactly on an even number of hex
/// digits (either case) and turns each pair into one byte.
#[verifier::external_body]
pub(crate) fn decode_hex(s: &str) -> (r: Option<Vec<u8>>)
    ensures
        r is Some <==> hex_ok(s@),
        r matches Some(v) ==> v@ == hex_decode(s@),
{
    hex::decode(s).ok()
}

/// The HMAC-SHA1 tag of `data` under `key`: a pure function of the two
/// arguments, computed by the crypto library.
pub uninterp spec fn hmac_sha1(key: Seq<u8>, data: Seq<u8>) -> Seq<u8>;

/// Relies on ring::hmac with the SHA-1 algorithm: recomputes the
/// HMAC-SHA1 tag of `data` under `key` (the tag ring::hmac::sign
/// returns) and compares it to `tag` in constant time.
#[verifier::external_body]
pub(crate) fn hmac_sha1_matches(key: &[u8], data: &[u8], tag: &[u8]) -> (r: bool)
    requires
        key@.len() <= MAX_HMAC_INPUT,
        data@.len() <= MAX_HMAC_INPUT,
    ensures
        r == (tag@ == hmac_sha1(key@, data@)),
{
    let k = ring::hmac::Key::new(ring::hmac::HMAC_SHA1_FOR_LEGACY_USE_ONLY, key);
    ring::hmac::verify(&k, data, tag).is_ok()
}

} // verus!
