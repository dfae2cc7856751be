//! Cache keys: the first eight lowercase hex digits of a URL's SHA-256.

use vstd::prelude::*;
use vstd::string::StringSliceAdditionalSpecFns;
use vstd::utf8::{encode_utf8, encode_utf8_decode_utf8};

verus! {

/// The SHA-256 digest of a byte string, as the `sha2` crate computes it.
pub uninterp spec fn sha256_of(data: Seq<u8>) -> [u8; 32];

/// Calls `sha2::Sha256::digest` and copies the 32 output bytes into an array.
/// The result is the SHA-256 of the argument; nothing is claimed about which
/// bytes that is.
#[verifier::external_body]
pub(crate) fn sha256(data: &[u8]) -> (digest: [u8; 32])
    ensures
        digest == sha256_of(data@),
{
    <sha2::Sha256 as sha2::Digest>::digest(data).into()
}

/// The lowercase hex digit for a value below sixteen.
pub open spec fn hex_digit(n: int) -> char {
    if n < 10 {
        (n + 48) as u8 as char
    } else {
        (n + 87) as u8 as char
    }
}

/// Two lowercase hex digits per byte, high nibble first.
pub open spec fn hex_lower(bytes: Seq<u8>) -> Seq<char> {
    Seq::new(
        2 * bytes.len(),
        |i: int|
            if i % 2 == 0 {
                hex_digit(bytes[i / 2] as int / 16)
            } else {
                hex_digit(bytes[i / 2] as int % 16)
            },
    )
}

/// The cache key that a digest gives: its first eight hex digits.
pub open spec fn key_of_digest(digest: Seq<u8>) -> Seq<char> {
    hex_lower(digest).take(8)
}

/// The cache key of a URL: the first eight lowercase hex digits of the
/// SHA-256 of its UTF-8 bytes.
pub open spec fn cache_key_of(url: Seq<char>) -> Seq<char> {
    key_of_digest(sha256_of(encode_utf8(url))@)
}

/// The four digest bytes that a URL's cache key is made from.
pub open spec fn digest_prefix(url: Seq<char>) -> Seq<u8> {
    sha256_of(encode_utf8(url))@.take(4)
}

/// Whether `c` is one of `0`-`9`, `a`-`f`.
pub open spec fn is_hex_char(c: char) -> bool {
    ('0' <= c && c <= '9') || ('a' <= c && c <= 'f')
}

fn hex_char(n: u8) -> (c: char)
    requires
        n < 16,
    ensures
        c == hex_digit(n as int),
        is_hex_char(c),
{
    if n < 10 {
        (n + 48) as char
    } else {
        (n + 87) as char
    }
}

/// Hex digits are distinct for distinct values.
pub proof fn lemma_hex_digit_injective(a: int, b: int)
    requires
        0 <= a < 16,
        0 <= b < 16,
        hex_digit(a) == hex_digit(b),
    ensures
        a == b,
{
    assert((a + 48) as u8 == a + 48);
    assert((a + 87) as u8 == a + 87);
    assert((b + 48) as u8 == b + 48);
    assert((b + 87) as u8 == b + 87);
    assert(hex_digit(a) as u8 == hex_digit(b) as u8);
}

/// A key has eight characters, all of them lowercase hex digits.
pub proof fn lemma_key_shape(digest: Seq<u8>)
    requires
        digest.len() >= 4,
    ensures
        key_of_digest(digest).len() == 8,
        forall|i: int| 0 <= i < 8 ==> is_hex_char(#[trigger] key_of_digest(digest)[i]),
{
    let key = key_of_digest(digest);
    assert forall|i: int| 0 <= i < 8 implies is_hex_char(#[trigger] key[i]) by {
        let b = digest[i / 2] as int;
        let n = if i % 2 == 0 { b / 16 } else { b % 16 };
        assert(0 <= n < 16);
        assert(key[i] == hex_digit(n));
        assert((n + 48) as u8 == n + 48);
        assert((n + 87) as u8 == n + 87);
    }
}

/// Equal keys come only from digests that agree in their first four bytes.
pub proof fn lemma_key_determines_prefix(d1: Seq<u8>, d2: Seq<u8>)
    requires
        d1.len() >= 4,
        d2.len() >= 4,
        key_of_digest(d1) == key_of_digest(d2),
    ensures
        d1.take(4) == d2.take(4),
{
    let k1 = key_of_digest(d1);
    let k2 = key_of_digest(d2);
    assert forall|j: int| 0 <= j < 4 implies d1[j] == d2[j] by {
        let a = d1[j] as int;
        let b = d2[j] as int;
        assert(k1[2 * j] == hex_digit(a / 16));
        assert(k2[2 * j] == hex_digit(b / 16));
        assert(k1[2 * j + 1] == hex_digit(a % 16));
        assert(k2[2 * j + 1] == hex_digit(b % 16));
        lemma_hex_digit_injective(a / 16, b / 16);
        lemma_hex_digit_injective(a % 16, b % 16);
    }
    assert(d1.take(4) =~= d2.take(4));
}

/// Digests that agree in their first four bytes give the same key.
pub proof fn lemma_prefix_determines_key(d1: Seq<u8>, d2: Seq<u8>)
    requires
        d1.len() >= 4,
        d2.len() >= 4,
        d1.take(4) == d2.take(4),
    ensures
        key_of_digest(d1) == key_of_digest(d2),
{
    assert forall|i: int| 0 <= i < 8 implies key_of_digest(d1)[i] == key_of_digest(d2)[i] by {
        assert(d1.take(4)[i / 2] == d1[i / 2]);
        assert(d2.take(4)[i / 2] == d2[i / 2]);
    }
    assert(key_of_digest(d1) =~= key_of_digest(d2));
}

/// The cache key for a digest.
pub fn key_from_digest(digest: &[u8; 32]) -> (key: String)
    ensures
        key@ == key_of_digest(digest@),
        key@.len() == 8,
{
    let mut key = String::new();
    let mut i: usize = 0;
    while i < 4
        invariant
            i <= 4,
            key@.len() == 2 * i,
            forall|j: int| 0 <= j < 2 * i ==> key@[j] == hex_lower(digest@)[j],
        decreases 4 - i,
    {
        let b = digest[i];
        key.push(hex_char(b / 16));
        key.push(hex_char(b % 16));
        i += 1;
    }
    assert(key@ =~= key_of_digest(digest@));
    key
}

/// The cache key of a URL. It depends on the URL alone: the same URL gives
/// the same key in every call.
pub fn cache_key(url: &str) -> (key: String)
    ensures
        key@ == cache_key_of(url@),
        key@.len() == 8,
{
    let digest = sha256(url.as_bytes());
    key_from_digest(&digest)
}

/// Two URLs have the same cache key exactly when their SHA-256 digests agree
/// in the first four bytes. Distinct URLs are hashed as distinct byte
/// strings, so they get distinct keys unless the truncated hash collides;
/// the same URL always gets the same key.
pub proof fn lemma_keys_differ_unless_digests_collide(url1: Seq<char>, url2: Seq<char>)
    ensures
        cache_key_of(url1) == cache_key_of(url2) <==> digest_prefix(url1) == digest_prefix(url2),
        url1 != url2 ==> encode_utf8(url1) != encode_utf8(url2),
        url1 == url2 ==> cache_key_of(url1) == cache_key_of(url2),
{
    encode_utf8_decode_utf8(url1);
    encode_utf8_decode_utf8(url2);
    let d1 = sha256_of(encode_utf8(url1))@;
    let d2 = sha256_of(encode_utf8(url2))@;
    if key_of_digest(d1) == key_of_digest(d2) {
        lemma_key_determines_prefix(d1, d2);
    }
    if d1.take(4) == d2.take(4) {
        lemma_prefix_determines_key(d1, d2);
    }
}

} // verus!
