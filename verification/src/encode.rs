//! Deterministic content hashing and URL-safe base64 encoding of the hash.
//!
//! The hash is the 64-bit value that `std::collections::hash_map::DefaultHasher`
//! produces when fed the UTF-8 bytes of the server message. `DefaultHasher::new`
//! starts from fixed keys, so two hashers fed the same bytes finish with the
//! same value on every call; the algorithm itself is std's choice and is only
//! stable within one toolchain release.

use base64::Engine;
use std::collections::hash_map::DefaultHasher;
use std::hash::Hasher;
use vstd::prelude::*;
use vstd::std_specs::hash::DefaultHasherAdditionalSpecFns;
use vstd::string::StringSliceAdditionalSpecFns;

verus! {

/// The 64-bit deterministic hash of a message's UTF-8 byte content.
pub open spec fn message_hash(bytes: Seq<u8>) -> u64 {
    DefaultHasher::spec_finish(seq![bytes])
}

/// Hashes the UTF-8 bytes of `msg` with a freshly created hasher, so that the
/// result is a function of the message content alone.
pub fn hash_message(msg: &str) -> (h: u64)
    ensures
        h == message_hash(msg.spec_bytes()),
{
    let mut hasher = DefaultHasher::new();
    hasher.write(msg.as_bytes());
    proof {
        assert(hasher@ =~= seq![msg.spec_bytes()]);
    }
    hasher.finish()
}

/// The URL-safe base64 alphabet character for a 6-bit value.
pub open spec fn b64_char(v: u64) -> char {
    if v < 26 {
        ((65 + v) as u8) as char
    } else if v < 52 {
        ((97 + (v - 26)) as u8) as char
    } else if v < 62 {
        ((48 + (v - 52)) as u8) as char
    } else if v == 62 {
        '-'
    } else {
        '_'
    }
}

/// The 11-character URL-safe base64 encoding, without padding, of the eight
/// big-endian bytes of `h`: ten characters of six bits each, then one carrying
/// the last four bits in its high positions.
pub open spec fn b64_of_u64(h: u64) -> Seq<char> {
    seq![
        b64_char((h >> 58) & 63),
        b64_char((h >> 52) & 63),
        b64_char((h >> 46) & 63),
        b64_char((h >> 40) & 63),
        b64_char((h >> 34) & 63),
        b64_char((h >> 28) & 63),
        b64_char((h >> 22) & 63),
        b64_char((h >> 16) & 63),
        b64_char((h >> 10) & 63),
        b64_char((h >> 4) & 63),
        b64_char((h & 15) << 2),
    ]
}

/// The encoded content hash of a message: the URL-safe base64 rendering of
/// the deterministic hash of the message's UTF-8 bytes.
pub open spec fn hash_string_of(msg: Seq<char>) -> Seq<char> {
    b64_of_u64(message_hash(vstd::utf8::encode_utf8(msg)))
}

/// Two occurrences with byte-identical server messages carry the identical
/// encoded hash: the hash is a function of the message content alone.
pub proof fn lemma_hash_deterministic(m1: Seq<char>, m2: Seq<char>)
    requires
        m1 == m2,
    ensures
        hash_string_of(m1) == hash_string_of(m2),
{
}

/// Relies on base64's `URL_SAFE_NO_PAD` engine (`Engine::encode` with the
/// RFC 4648 section 5 alphabet and padding suppressed): encoding the eight
/// big-endian bytes of `h` yields exactly the eleven characters given by
/// `b64_of_u64(h)`.
#[verifier::external_body]
pub(crate) fn encode_hash(h: u64) -> (r: String)
    ensures
        r@ == b64_of_u64(h),
{
    base64::engine::general_purpose::URL_SAFE_NO_PAD.encode(h.to_be_bytes())
}

/// A character of the URL-safe base64 alphabet.
pub open spec fn is_b64_url_char(c: char) -> bool {
    (65 <= c as u32 && c as u32 <= 90)  // 'A'..='Z'
    || (97 <= c as u32 && c as u32 <= 122)  // 'a'..='z'
    || (48 <= c as u32 && c as u32 <= 57)  // '0'..='9'
    || c == '-' || c == '_'
}

proof fn lemma_b64_char_in_alphabet(v: u64)
    requires
        v < 64,
    ensures
        is_b64_url_char(b64_char(v)),
        b64_char(v) != '=',
{
}

/// The 6-bit value that a URL-safe base64 alphabet character stands for.
pub open spec fn b64_val(c: char) -> u64 {
    if 65 <= c as u32 && c as u32 <= 90 {  // 'A'..='Z'
        (c as u32 - 65) as u64
    } else if 97 <= c as u32 && c as u32 <= 122 {  // 'a'..='z'
        (c as u32 - 97 + 26) as u64
    } else if 48 <= c as u32 && c as u32 <= 57 {  // '0'..='9'
        (c as u32 - 48 + 52) as u64
    } else if c == '-' {
        62
    } else {
        63
    }
}

/// The eight bytes that an 11-character no-padding base64 text decodes to,
/// reassembled as one big-endian 64-bit value.
pub open spec fn b64_decode_u64(s: Seq<char>) -> u64
    recommends
        s.len() == 11,
{
    (b64_val(s[0]) << 58) | (b64_val(s[1]) << 52) | (b64_val(s[2]) << 46) | (b64_val(s[3]) << 40)
        | (b64_val(s[4]) << 34) | (b64_val(s[5]) << 28) | (b64_val(s[6]) << 22) | (b64_val(
        s[7],
    ) << 16) | (b64_val(s[8]) << 10) | (b64_val(s[9]) << 4) | (b64_val(s[10]) >> 2)
}

proof fn lemma_b64_val_of_char(v: u64)
    requires
        v < 64,
    ensures
        b64_val(b64_char(v)) == v,
{
}

/// Decoding an encoded hash recovers the hash in full: the eleven characters
/// carry exactly the eight big-endian bytes of `h`, no more and no less.
pub proof fn lemma_hash_encoding_decodes(h: u64)
    ensures
        b64_decode_u64(b64_of_u64(h)) == h,
{
    assert((h >> 58) & 63 < 64) by (bit_vector);
    assert((h >> 52) & 63 < 64) by (bit_vector);
    assert((h >> 46) & 63 < 64) by (bit_vector);
    assert((h >> 40) & 63 < 64) by (bit_vector);
    assert((h >> 34) & 63 < 64) by (bit_vector);
    assert((h >> 28) & 63 < 64) by (bit_vector);
    assert((h >> 22) & 63 < 64) by (bit_vector);
    assert((h >> 16) & 63 < 64) by (bit_vector);
    assert((h >> 10) & 63 < 64) by (bit_vector);
    assert((h >> 4) & 63 < 64) by (bit_vector);
    assert((h & 15) << 2 < 64) by (bit_vector);
    lemma_b64_val_of_char((h >> 58) & 63);
    lemma_b64_val_of_char((h >> 52) & 63);
    lemma_b64_val_of_char((h >> 46) & 63);
    lemma_b64_val_of_char((h >> 40) & 63);
    lemma_b64_val_of_char((h >> 34) & 63);
    lemma_b64_val_of_char((h >> 28) & 63);
    lemma_b64_val_of_char((h >> 22) & 63);
    lemma_b64_val_of_char((h >> 16) & 63);
    lemma_b64_val_of_char((h >> 10) & 63);
    lemma_b64_val_of_char((h >> 4) & 63);
    lemma_b64_val_of_char((h & 15) << 2);
    assert(((((h >> 58) & 63) << 58) | (((h >> 52) & 63) << 52) | (((h >> 46) & 63) << 46) | (((h
        >> 40) & 63) << 40) | (((h >> 34) & 63) << 34) | (((h >> 28) & 63) << 28) | (((h >> 22)
        & 63) << 22) | (((h >> 16) & 63) << 16) | (((h >> 10) & 63) << 10) | (((h >> 4) & 63) << 4)
        | (((h & 15) << 2) >> 2)) == h) by (bit_vector);
}

/// Every encoded hash is eleven characters, all from the URL-safe base64
/// alphabet, with no `=` padding among them.
pub proof fn lemma_hash_encoding_valid(h: u64)
    ensures
        b64_of_u64(h).len() == 11,
        forall|i: int| 0 <= i < 11 ==> is_b64_url_char(#[trigger] b64_of_u64(h)[i]),
        forall|i: int| 0 <= i < 11 ==> b64_of_u64(h)[i] != '=',
{
    assert((h >> 58) & 63 < 64) by (bit_vector);
    assert((h >> 52) & 63 < 64) by (bit_vector);
    assert((h >> 46) & 63 < 64) by (bit_vector);
    assert((h >> 40) & 63 < 64) by (bit_vector);
    assert((h >> 34) & 63 < 64) by (bit_vector);
    assert((h >> 28) & 63 < 64) by (bit_vector);
    assert((h >> 22) & 63 < 64) by (bit_vector);
    assert((h >> 16) & 63 < 64) by (bit_vector);
    assert((h >> 10) & 63 < 64) by (bit_vector);
    assert((h >> 4) & 63 < 64) by (bit_vector);
    assert((h & 15) << 2 < 64) by (bit_vector);
    lemma_b64_char_in_alphabet((h >> 58) & 63);
    lemma_b64_char_in_alphabet((h >> 52) & 63);
    lemma_b64_char_in_alphabet((h >> 46) & 63);
    lemma_b64_char_in_alphabet((h >> 40) & 63);
    lemma_b64_char_in_alphabet((h >> 34) & 63);
    lemma_b64_char_in_alphabet((h >> 28) & 63);
    lemma_b64_char_in_alphabet((h >> 22) & 63);
    lemma_b64_char_in_alphabet((h >> 16) & 63);
    lemma_b64_char_in_alphabet((h >> 10) & 63);
    lemma_b64_char_in_alphabet((h >> 4) & 63);
    lemma_b64_char_in_alphabet((h & 15) << 2);
    assert forall|i: int| 0 <= i < 11 implies is_b64_url_char(#[trigger] b64_of_u64(h)[i])
        && b64_of_u64(h)[i] != '=' by {
    }
}

/// The encoded hash of any message is a fixed-length URL-safe base64 text:
/// eleven characters of the URL-safe alphabet and no `=` padding among them.
pub proof fn lemma_hash_string_valid(msg: Seq<char>)
    ensures
        hash_string_of(msg).len() == 11,
        forall|i: int| 0 <= i < 11 ==> is_b64_url_char(#[trigger] hash_string_of(msg)[i]),
        forall|i: int| 0 <= i < 11 ==> hash_string_of(msg)[i] != '=',
{
    lemma_hash_encoding_valid(message_hash(vstd::utf8::encode_utf8(msg)));
}

} // verus!
